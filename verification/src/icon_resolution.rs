//! The icon of an account row.

use crate::text::is_white_space;
use crate::text::only_white_space_is_trimmed;
use crate::text::trim;
use crate::text::trimmed;
use crate::text::white_space_trims_to_nothing;
use vstd::prelude::*;

verus! {

/// Icon shown where an account has no icon hint or the theme lacks it.
pub const PLACEHOLDER_ICON_NAME: &'static str = "dialog-password-symbolic";

/// Whether a hint names no icon: absent, empty or white space alone.
pub open spec fn names_no_icon(hint: Option<&str>) -> bool {
    hint is None || trimmed(hint->0@).len() == 0
}

/// The icon for a slug that names one: the slug where the theme has it, the
/// placeholder otherwise.
pub fn themed_icon(slug: &str, in_theme: bool) -> (r: &str)
    ensures
        r@ == (if in_theme {
            slug@
        } else {
            "dialog-password-symbolic"@
        }),
{
    if in_theme {
        slug
    } else {
        PLACEHOLDER_ICON_NAME
    }
}

/// Resolves the icon of a row. The theme is asked only for a hint that names
/// an icon.
pub fn resolve_display_icon<'a, F: FnOnce(&str) -> bool>(
    hint: Option<&'a str>,
    has_icon: F,
) -> (r: &'a str)
    requires
        !names_no_icon(hint) ==> call_requires(has_icon, (hint->0,)),
    ensures
        names_no_icon(hint) ==> r@ == "dialog-password-symbolic"@,
        !names_no_icon(hint) ==> exists|in_theme: bool|
            #[trigger] call_ensures(has_icon, (hint->0,), in_theme) && r@ == (if in_theme {
                hint->0@
            } else {
                "dialog-password-symbolic"@
            }),
{
    let slug = match hint {
        Some(slug) => slug,
        None => return PLACEHOLDER_ICON_NAME,
    };
    if trim(slug).is_empty() {
        return PLACEHOLDER_ICON_NAME;
    }
    themed_icon(slug, has_icon(slug))
}

/// A hint names an icon exactly where it holds a character other than white space.
pub proof fn hint_with_a_character_names_an_icon(hint: Option<&str>)
    ensures
        hint is None ==> names_no_icon(hint),
        hint matches Some(text) ==> (names_no_icon(hint) <==> forall|i: int|
            0 <= i < text@.len() ==> is_white_space(#[trigger] text@[i])),
{
    if let Some(text) = hint {
        if names_no_icon(hint) {
            let (front, back) = only_white_space_is_trimmed(text@);
            assert(text@ =~= front + back);
            assert forall|i: int| 0 <= i < text@.len() implies is_white_space(
                #[trigger] text@[i],
            ) by {
                assert(text@[i] == if i < front.len() {
                    front[i]
                } else {
                    back[i - front.len()]
                });
            }
        } else if forall|i: int| 0 <= i < text@.len() ==> is_white_space(#[trigger] text@[i]) {
            white_space_trims_to_nothing(text@);
        }
    }
}

} // verus!

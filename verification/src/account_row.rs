//! Row-level display data: what one account row shows and what a row
//! action asks for.

use crate::account::AccountId;
use crate::account::AccountKindSummary;
use crate::account::AccountRowModel;
use crate::account::AccountSummary;
use crate::text::joined3;
use vstd::prelude::*;

verus! {

/// Visible state of a row's code.
#[derive(Debug)]
pub enum CodeDisplay {
    /// No code is shown.
    Hidden,
    /// The digits shown.
    Visible(String),
}

/// Time left in the active window of a time-based code.
#[derive(Clone, Copy, Debug, PartialEq, Eq, Structural)]
pub struct Countdown {
    /// Seconds until the code changes.
    pub remaining_secs: u64,
    /// Length of the window in seconds.
    pub period_secs: u64,
}

/// Everything the cells of one account row render.
#[derive(Debug)]
pub struct RowDisplay {
    /// `<issuer>:<label>` text.
    pub label: String,
    /// Kind of the account.
    pub kind: AccountKindSummary,
    /// Current code.
    pub code: CodeDisplay,
    /// Digits of the upcoming code, where one is known.
    pub next_code: Option<String>,
    /// Counter shown beside a counter-based code.
    pub counter: Option<u64>,
    /// Whether the copy button is sensitive.
    pub copy_enabled: bool,
    /// Whether the "next" button is shown.
    pub next_button_visible: bool,
    /// Whether the "next" button is sensitive.
    pub next_button_enabled: bool,
    /// Whether the countdown is shown.
    pub progress_visible: bool,
    /// Countdown of a time-based code.
    pub progress: Option<Countdown>,
    /// Whether the overflow menu button is shown.
    pub kebab_visible: bool,
    /// Whether the overflow menu button is sensitive.
    pub kebab_enabled: bool,
}

impl Clone for CodeDisplay {
    fn clone(&self) -> (r: Self)
        ensures
            r == *self,
    {
        match self {
            CodeDisplay::Hidden => CodeDisplay::Hidden,
            CodeDisplay::Visible(digits) => CodeDisplay::Visible(digits.clone()),
        }
    }
}

impl Clone for RowDisplay {
    fn clone(&self) -> (r: Self)
        ensures
            r == *self,
    {
        RowDisplay {
            label: self.label.clone(),
            kind: self.kind,
            code: self.code.clone(),
            next_code: crate::account::copy_optional(&self.next_code),
            counter: self.counter,
            copy_enabled: self.copy_enabled,
            next_button_visible: self.next_button_visible,
            next_button_enabled: self.next_button_enabled,
            progress_visible: self.progress_visible,
            progress: self.progress,
            kebab_visible: self.kebab_visible,
            kebab_enabled: self.kebab_enabled,
        }
    }
}

/// `<issuer>:<label>`, or the bare label where there is no issuer. An empty
/// issuer counts as none, so that no label starts with a dangling colon.
pub open spec fn labelled(issuer: Option<Seq<char>>, label: Seq<char>) -> Seq<char> {
    match issuer {
        Some(name) if name.len() > 0 => name + seq![':'] + label,
        _ => label,
    }
}

/// With an issuer, the text is the issuer, a colon and the label; with none or
/// an empty one it is the label alone.
pub proof fn label_follows_the_issuer(issuer: Seq<char>, label: Seq<char>)
    ensures
        issuer.len() > 0 ==> {
            let text = labelled(Some(issuer), label);
            &&& text.len() == issuer.len() + 1 + label.len()
            &&& text.subrange(0, issuer.len() as int) == issuer
            &&& text[issuer.len() as int] == ':'
            &&& text.subrange(issuer.len() as int + 1, text.len() as int) == label
        },
        issuer.len() == 0 ==> labelled(Some(issuer), label) == label,
        labelled(None, label) == label,
{
    let text = labelled(Some(issuer), label);
    if issuer.len() > 0 {
        assert(text.subrange(0, issuer.len() as int) =~= issuer);
        assert(text.subrange(issuer.len() as int + 1, text.len() as int) =~= label);
    }
}

/// `<issuer>:<label>` text of an account.
pub fn display_label(issuer: &Option<String>, label: &String) -> (r: String)
    ensures
        r@ == labelled(crate::text::optional_text(*issuer), label@),
{
    match issuer {
        Some(name) => {
            if name.as_str().is_empty() {
                label.clone()
            } else {
                proof {
                    reveal_strlit(":");
                    assert(":"@ =~= seq![':']);
                }
                joined3(name.as_str(), ":", label.as_str())
            }
        },
        None => label.clone(),
    }
}

/// `<issuer>:<label>` text of a summary.
pub fn summary_display_label(summary: &AccountSummary) -> (r: String)
    ensures
        r@ == labelled(crate::text::optional_text(summary.issuer), summary.label@),
{
    display_label(&summary.issuer, &summary.label)
}

/// A display with everything turned off that a busy row does not offer.
pub fn apply_busy_mask(display: RowDisplay, busy: bool) -> (r: RowDisplay)
    ensures
        r == (RowDisplay {
            copy_enabled: display.copy_enabled && !busy,
            next_button_enabled: display.next_button_enabled && !busy,
            kebab_enabled: display.kebab_enabled && !busy,
            ..display
        }),
{
    let mut masked: RowDisplay = display;
    if busy {
        masked.copy_enabled = false;
        masked.next_button_enabled = false;
        masked.kebab_enabled = false;
    }
    masked
}

/// What a row shows before its first code: a counter-based row offers to
/// advance its counter and has nothing to copy, a time-based row has its
/// countdown.
pub fn hidden_row_display(model: &AccountRowModel) -> (r: RowDisplay)
    ensures
        ({
            let counts = model.kind == AccountKindSummary::Hotp;
            r == (RowDisplay {
                label: model.display_label,
                kind: model.kind,
                code: CodeDisplay::Hidden,
                next_code: None,
                counter: None,
                copy_enabled: !counts,
                next_button_visible: counts,
                next_button_enabled: counts,
                progress_visible: !counts,
                progress: None,
                kebab_visible: true,
                kebab_enabled: true,
            })
        }),
{
    let counts: bool = match model.kind {
        AccountKindSummary::Hotp => true,
        AccountKindSummary::Totp => false,
    };
    RowDisplay {
        label: model.display_label.clone(),
        kind: model.kind,
        code: CodeDisplay::Hidden,
        next_code: None,
        counter: None,
        copy_enabled: !counts,
        next_button_visible: counts,
        next_button_enabled: counts,
        progress_visible: !counts,
        progress: None,
        kebab_visible: true,
        kebab_enabled: true,
    }
}

/// What a row action asks for.
#[derive(Clone, Copy, Debug)]
pub enum AccountRowOutput {
    /// Open the rename dialog.
    RequestRename(AccountId),
    /// Open the remove dialog.
    RequestRemove(AccountId),
    /// Copy the current code.
    RequestCopy(AccountId),
    /// Advance the counter.
    RequestAdvance(AccountId),
}

} // verus!

//! What the cells of the account list show, what their buttons ask for, and
//! which handler each recycled cell holds.

use crate::account::AccountId;
use crate::account_row::AccountRowOutput;
use crate::account_row::CodeDisplay;
use crate::account_row::Countdown;
use crate::account_row::RowDisplay;
use crate::icon_resolution::resolve_display_icon;
use crate::row_item::RowItem;
use crate::row_item::RowKind;
use crate::text::joined;
use crate::text::trimmed;
use std::collections::HashMap;
use vstd::prelude::*;

verus! {

/// What stands before the digits of the upcoming code.
pub const NEXT_CODE_PREFIX: &'static str = "\u{21AA} ";

/// Tooltip of the cells whose activation copies the current code.
pub const ROW_BODY_COPY_TOOLTIP: &'static str = "Copy current code";

/// What the list asks of the application.
#[derive(Clone, Copy, Debug)]
pub enum AccountListOutput {
    /// Open the rename dialog.
    OpenRenameDialog(AccountId),
    /// Open the remove dialog.
    OpenRemoveDialog(AccountId),
    /// Copy the current code.
    CopyCode(AccountId),
    /// Copy the upcoming code.
    CopyNextCode(AccountId),
    /// Advance the counter.
    AdvanceHotp(AccountId),
}

/// What the list asks of the application for a row action.
pub fn route_row_output(output: AccountRowOutput) -> (r: AccountListOutput)
    ensures
        r == (match output {
            AccountRowOutput::RequestRename(id) => AccountListOutput::OpenRenameDialog(id),
            AccountRowOutput::RequestRemove(id) => AccountListOutput::OpenRemoveDialog(id),
            AccountRowOutput::RequestCopy(id) => AccountListOutput::CopyCode(id),
            AccountRowOutput::RequestAdvance(id) => AccountListOutput::AdvanceHotp(id),
        }),
{
    match output {
        AccountRowOutput::RequestRename(id) => AccountListOutput::OpenRenameDialog(id),
        AccountRowOutput::RequestRemove(id) => AccountListOutput::OpenRemoveDialog(id),
        AccountRowOutput::RequestCopy(id) => AccountListOutput::CopyCode(id),
        AccountRowOutput::RequestAdvance(id) => AccountListOutput::AdvanceHotp(id),
    }
}

/// The buttons of a row.
#[derive(Clone, Copy, Debug)]
pub enum RowButton {
    /// The button that advances the counter.
    Advance,
    /// The button that copies the upcoming code.
    CopyNext,
    /// The button that copies the current code.
    Copy,
}

/// What a press of a button asks for: something about the account that the
/// cell shows now, and nothing where it shows none.
pub fn button_request(button: RowButton, item: &RowItem) -> (r: Option<AccountListOutput>)
    ensures
        r == (match item.id {
            Some(id) => Some(
                match button {
                    RowButton::Advance => AccountListOutput::AdvanceHotp(id),
                    RowButton::CopyNext => AccountListOutput::CopyNextCode(id),
                    RowButton::Copy => AccountListOutput::CopyCode(id),
                },
            ),
            None => None,
        }),
{
    match item.account_id() {
        Some(id) => Some(
            match button {
                RowButton::Advance => AccountListOutput::AdvanceHotp(id),
                RowButton::CopyNext => AccountListOutput::CopyNextCode(id),
                RowButton::Copy => AccountListOutput::CopyCode(id),
            },
        ),
        None => None,
    }
}

/// What a cell of the account column shows.
#[derive(Debug)]
pub struct AccountCell {
    /// Whether the row can be selected.
    pub selectable: bool,
    /// Name of the icon; none is shown without one.
    pub icon_name: Option<String>,
    /// Text.
    pub label: String,
    /// Whether the text is a heading.
    pub heading: bool,
    /// Tooltip.
    pub tooltip: Option<&'static str>,
}

/// A cell of the account column: a heading for a section, icon and label for
/// an account. `has_icon` says whether the theme has an icon.
pub fn account_cell<F: FnOnce(&str) -> bool>(item: &RowItem, has_icon: F) -> (r: AccountCell)
    requires
        forall|slug: &str|
            item.kind is Account && item.icon_hint is Some && slug@ == item.icon_hint->0@
                && trimmed(slug@).len() > 0 ==> #[trigger] call_requires(has_icon, (slug,)),
    ensures
        match item.kind {
            RowKind::Section(title) => {
                &&& !r.selectable
                &&& r.icon_name is None
                &&& r.label == title
                &&& r.heading
                &&& r.tooltip is None
            },
            RowKind::Account => {
                &&& r.selectable
                &&& r.label == item.display.label
                &&& !r.heading
                &&& r.tooltip is Some && r.tooltip->0@ == "Copy current code"@
                &&& r.icon_name is Some
                &&& match item.icon_hint {
                    Some(hint) if trimmed(hint@).len() > 0 => exists|slug: &str, in_theme: bool|
                        slug@ == hint@ && #[trigger] call_ensures(has_icon, (slug,), in_theme)
                            && r.icon_name->0@ == (if in_theme {
                            hint@
                        } else {
                            "dialog-password-symbolic"@
                        }),
                    _ => r.icon_name->0@ == "dialog-password-symbolic"@,
                }
            },
        },
{
    match &item.kind {
        RowKind::Section(title) => AccountCell {
            selectable: false,
            icon_name: None,
            label: title.clone(),
            heading: true,
            tooltip: None,
        },
        RowKind::Account => {
            let hint: Option<&str> = match &item.icon_hint {
                Some(hint) => Some(hint.as_str()),
                None => None,
            };
            let icon: &str = resolve_display_icon(hint, has_icon);
            AccountCell {
                selectable: true,
                icon_name: Some(icon.to_owned()),
                label: item.display.label.clone(),
                heading: false,
                tooltip: Some(ROW_BODY_COPY_TOOLTIP),
            }
        },
    }
}

/// What a cell of the code column shows.
#[derive(Debug)]
pub struct CodeCell {
    /// Counter; none is shown without one.
    pub counter: Option<u64>,
    /// Code.
    pub code: CodeDisplay,
    /// Whether the button that advances the counter is shown.
    pub next_visible: bool,
    /// Whether that button is sensitive.
    pub next_sensitive: bool,
    /// Tooltip.
    pub tooltip: &'static str,
}

/// A cell of the code column; a section shows nothing. `mask` turns off what
/// a busy row does not offer.
pub fn code_cell<F: FnOnce(RowDisplay, bool) -> RowDisplay>(item: &RowItem, mask: F) -> (r: Option<
    CodeCell,
>)
    requires
        call_requires(mask, (item.display, item.busy)),
    ensures
        item.kind is Section <==> r is None,
        r matches Some(cell) ==> exists|masked: RowDisplay| #[trigger]
            call_ensures(mask, (item.display, item.busy), masked) && {
                &&& cell.counter == masked.counter
                &&& cell.code == masked.code
                &&& cell.next_visible == masked.next_button_visible
                &&& cell.next_sensitive == masked.next_button_enabled
                &&& cell.tooltip@ == "Copy current code"@
            },
{
    if item.is_section() {
        return None;
    }
    let masked: RowDisplay = mask(item.display(), item.busy());
    Some(
        CodeCell {
            counter: masked.counter,
            code: masked.code,
            next_visible: masked.next_button_visible,
            next_sensitive: masked.next_button_enabled,
            tooltip: ROW_BODY_COPY_TOOLTIP,
        },
    )
}

/// What a cell of the column of upcoming codes shows.
#[derive(Debug)]
pub struct NextCodeCell {
    /// Text.
    pub label: String,
    /// Whether the button is sensitive.
    pub sensitive: bool,
}

/// A cell of the column of upcoming codes; a section shows nothing. Without a
/// known code, and while the row is busy, the button is off.
pub fn next_code_cell(item: &RowItem) -> (r: Option<NextCodeCell>)
    ensures
        item.kind is Section <==> r is None,
        r matches Some(cell) ==> match item.display.next_code {
            Some(digits) => cell.label@ == "\u{21AA} "@ + digits@ && cell.sensitive
                == !item.busy,
            None => cell.label@.len() == 0 && !cell.sensitive,
        },
{
    if item.is_section() {
        return None;
    }
    match &item.display.next_code {
        Some(digits) => Some(
            NextCodeCell {
                label: joined(NEXT_CODE_PREFIX, digits.as_str()),
                sensitive: !item.busy(),
            },
        ),
        None => Some(NextCodeCell { label: String::new(), sensitive: false }),
    }
}

/// What a cell of the time column shows.
#[derive(Clone, Copy, Debug)]
pub struct TimeCell {
    /// Whether bar and seconds are shown.
    pub visible: bool,
    /// Countdown; without one the bar is empty and the text is blank.
    pub countdown: Option<Countdown>,
    /// Tooltip.
    pub tooltip: &'static str,
}

/// A cell of the time column; a section shows nothing.
pub fn time_cell(item: &RowItem) -> (r: Option<TimeCell>)
    ensures
        item.kind is Section <==> r is None,
        r matches Some(cell) ==> {
            &&& cell.visible == item.display.progress_visible
            &&& cell.countdown == item.display.progress
            &&& cell.tooltip@ == "Copy current code"@
        },
{
    if item.is_section() {
        return None;
    }
    Some(
        TimeCell {
            visible: item.display.progress_visible,
            countdown: item.display.progress,
            tooltip: ROW_BODY_COPY_TOOLTIP,
        },
    )
}

/// What a cell with one button shows.
#[derive(Clone, Copy, Debug, PartialEq, Eq, Structural)]
pub struct ButtonCell {
    /// Whether the button is shown.
    pub visible: bool,
    /// Whether it is sensitive.
    pub sensitive: bool,
}

/// A cell of the copy column; a section shows nothing. `mask` turns off what
/// a busy row does not offer.
pub fn copy_cell<F: FnOnce(RowDisplay, bool) -> RowDisplay>(item: &RowItem, mask: F) -> (r: Option<
    ButtonCell,
>)
    requires
        call_requires(mask, (item.display, item.busy)),
    ensures
        item.kind is Section <==> r is None,
        r matches Some(cell) ==> exists|masked: RowDisplay| #[trigger]
            call_ensures(mask, (item.display, item.busy), masked) && cell == (ButtonCell {
                visible: true,
                sensitive: masked.copy_enabled,
            }),
{
    if item.is_section() {
        return None;
    }
    let masked: RowDisplay = mask(item.display(), item.busy());
    Some(ButtonCell { visible: true, sensitive: masked.copy_enabled })
}

/// A cell of the menu column; a section shows nothing. `mask` turns off what
/// a busy row does not offer.
pub fn kebab_cell<F: FnOnce(RowDisplay, bool) -> RowDisplay>(item: &RowItem, mask: F) -> (r:
    Option<ButtonCell>)
    requires
        call_requires(mask, (item.display, item.busy)),
    ensures
        item.kind is Section <==> r is None,
        r matches Some(cell) ==> exists|masked: RowDisplay| #[trigger]
            call_ensures(mask, (item.display, item.busy), masked) && cell == (ButtonCell {
                visible: masked.kebab_visible,
                sensitive: masked.kebab_enabled,
            }),
{
    if item.is_section() {
        return None;
    }
    let masked: RowDisplay = mask(item.display(), item.busy());
    Some(ButtonCell { visible: masked.kebab_visible, sensitive: masked.kebab_enabled })
}

/// The handlers of the cells after a cell is bound.
pub open spec fn rebound<H>(slots: Map<usize, H>, cell: usize, handler: Option<H>) -> Map<
    usize,
    H,
> {
    match handler {
        Some(h) => slots.insert(cell, h),
        None => slots.remove(cell),
    }
}

/// Which handler each cell holds. Cells are recycled: each is bound to one row
/// after another, and holds the handler of the row that it shows now.
pub struct HandlerSlots<H> {
    slots: HashMap<usize, H>,
}

impl<H> View for HandlerSlots<H> {
    type V = Map<usize, H>;

    closed spec fn view(&self) -> Map<usize, H> {
        self.slots@
    }
}

impl<H> HandlerSlots<H> {
    /// No cell holds a handler.
    pub fn new() -> (r: Self)
        ensures
            r@ == Map::<usize, H>::empty(),
    {
        HandlerSlots { slots: HashMap::new() }
    }

    /// Binds a cell: it holds `handler` from now on, or none. Returns the
    /// handler that it held, which is to be disconnected.
    pub fn bind(&mut self, cell: usize, handler: Option<H>) -> (r: Option<H>)
        ensures
            final(self)@ == rebound(old(self)@, cell, handler),
            r == (if old(self)@.contains_key(cell) {
                Some(old(self)@[cell])
            } else {
                None
            }),
    {
        broadcast use vstd::std_specs::hash::group_hash_axioms;

        match handler {
            Some(h) => self.slots.insert(cell, h),
            None => self.slots.remove(&cell),
        }
    }

    /// Unbinds a cell: it holds no handler from now on. Returns the handler
    /// that it held, which is to be disconnected.
    pub fn unbind(&mut self, cell: usize) -> (r: Option<H>)
        ensures
            final(self)@ == old(self)@.remove(cell),
            r == (if old(self)@.contains_key(cell) {
                Some(old(self)@[cell])
            } else {
                None
            }),
    {
        self.bind(cell, None)
    }
}

/// A bound cell holds the handler of the row that it shows, and no other; a
/// cell without one, and an unbound cell, hold none. Other cells keep theirs.
pub proof fn cell_holds_its_row_alone<H>(
    slots: Map<usize, H>,
    cell: usize,
    other: usize,
    before: Option<H>,
    handler: H,
)
    requires
        other != cell,
    ensures
        rebound(rebound(slots, cell, before), cell, Some(handler)) == slots.insert(cell, handler),
        !rebound(rebound(slots, cell, Some(handler)), cell, None).contains_key(cell),
        rebound(slots, cell, Some(handler)).contains_key(other) == slots.contains_key(other),
        rebound(slots, cell, Some(handler))[other] == slots[other],
        rebound(slots, cell, None).contains_key(other) == slots.contains_key(other),
        rebound(slots, cell, None)[other] == slots[other],
{
    assert(rebound(rebound(slots, cell, before), cell, Some(handler)) =~= slots.insert(
        cell,
        handler,
    ));
}

/// A handler that is bound is the one that the cell holds; without one the cell
/// holds nothing.
pub proof fn bound_handler_is_held<H>(slots: Map<usize, H>, cell: usize, handler: H)
    ensures
        rebound(slots, cell, Some(handler)).contains_key(cell),
        rebound(slots, cell, Some(handler))[cell] == handler,
        !rebound(slots, cell, None).contains_key(cell),
{
}

} // verus!

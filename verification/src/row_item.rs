//! The element of the account list's store: a section heading or an
//! account row with its display projection and busy latch.

use crate::account::copy_optional;
use crate::account::AccountId;
use crate::account::AccountKindSummary;
use crate::account::AccountRowModel;
use crate::account_row::CodeDisplay;
use crate::account_row::RowDisplay;
use vstd::prelude::*;

verus! {

/// Name of the signal raised when the bound display changes.
pub const ROW_ITEM_DISPLAY_CHANGED_SIGNAL: &'static str = "display-changed";

/// Discriminator of the two row shapes.
#[derive(Debug, PartialEq, Eq)]
pub enum RowKind {
    /// Section heading with its text.
    Section(String),
    /// Account row.
    Account,
}

impl Clone for RowKind {
    fn clone(&self) -> (r: Self)
        ensures
            r == *self,
    {
        match self {
            RowKind::Section(title) => RowKind::Section(title.clone()),
            RowKind::Account => RowKind::Account,
        }
    }
}

/// State of one row of the store.
#[derive(Debug)]
pub struct RowItem {
    /// Row shape.
    pub kind: RowKind,
    /// Bound account, `None` for headings and unseeded rows.
    pub id: Option<AccountId>,
    /// Display projection.
    pub display: RowDisplay,
    /// Icon slug.
    pub icon_hint: Option<String>,
    /// Issuer, read by the sorter.
    pub issuer: Option<String>,
    /// Busy latch.
    pub busy: bool,
}

/// A display with nothing to show and every control off.
pub open spec fn blank_display(d: RowDisplay) -> bool {
    &&& d.label@.len() == 0
    &&& d.kind == AccountKindSummary::Totp
    &&& d.code is Hidden
    &&& d.next_code is None
    &&& d.counter is None
    &&& !d.copy_enabled
    &&& !d.next_button_visible
    &&& !d.next_button_enabled
    &&& !d.progress_visible
    &&& d.progress is None
    &&& !d.kebab_visible
    &&& !d.kebab_enabled
}

impl RowItem {
    /// An unseeded account row: no identity, blank display, not busy.
    pub fn new() -> (r: Self)
        ensures
            r.kind is Account,
            r.id is None,
            blank_display(r.display),
            r.icon_hint is None,
            r.issuer is None,
            !r.busy,
    {
        RowItem {
            kind: RowKind::Account,
            id: None,
            display: RowDisplay {
                label: String::new(),
                kind: AccountKindSummary::Totp,
                code: CodeDisplay::Hidden,
                next_code: None,
                counter: None,
                copy_enabled: false,
                next_button_visible: false,
                next_button_enabled: false,
                progress_visible: false,
                progress: None,
                kebab_visible: false,
                kebab_enabled: false,
            },
            icon_hint: None,
            issuer: None,
            busy: false,
        }
    }

    /// An account row seeded from `model`, showing `hidden`: the projection
    /// of the model without a visible code.
    pub fn from_row_model(model: &AccountRowModel, hidden: RowDisplay) -> (r: Self)
        ensures
            r.kind is Account,
            r.id == Some(model.id),
            r.display == hidden,
            r.icon_hint == model.icon_hint,
            r.issuer == model.issuer,
            !r.busy,
    {
        RowItem {
            kind: RowKind::Account,
            id: Some(model.id),
            display: hidden,
            icon_hint: copy_optional(&model.icon_hint),
            issuer: copy_optional(&model.issuer),
            busy: false,
        }
    }

    /// A section heading.
    pub fn section(title: String) -> (r: Self)
        ensures
            r.kind == RowKind::Section(title),
            r.id is None,
            blank_display(r.display),
            r.icon_hint is None,
            r.issuer is None,
            !r.busy,
    {
        let mut item = RowItem::new();
        item.kind = RowKind::Section(title);
        item
    }

    /// The row's shape.
    pub fn kind(&self) -> (r: RowKind)
        ensures
            r == self.kind,
    {
        self.kind.clone()
    }

    /// Whether the row is a section heading.
    pub fn is_section(&self) -> (r: bool)
        ensures
            r == (self.kind is Section),
    {
        match &self.kind {
            RowKind::Section(_) => true,
            RowKind::Account => false,
        }
    }

    /// The heading text of a section row.
    pub fn section_title(&self) -> (r: Option<String>)
        ensures
            r == (match self.kind {
                RowKind::Section(title) => Some(title),
                RowKind::Account => None,
            }),
    {
        match &self.kind {
            RowKind::Section(title) => Some(title.clone()),
            RowKind::Account => None,
        }
    }

    /// The bound account.
    pub fn account_id(&self) -> (r: Option<AccountId>)
        ensures
            r == self.id,
    {
        self.id
    }

    /// The display projection.
    pub fn display(&self) -> (r: RowDisplay)
        ensures
            r == self.display,
    {
        self.display.clone()
    }

    /// The icon slug.
    pub fn icon_hint(&self) -> (r: Option<String>)
        ensures
            r == self.icon_hint,
    {
        copy_optional(&self.icon_hint)
    }

    /// The issuer.
    pub fn issuer(&self) -> (r: Option<String>)
        ensures
            r == self.issuer,
    {
        copy_optional(&self.issuer)
    }

    /// The busy latch.
    pub fn busy(&self) -> (r: bool)
        ensures
            r == self.busy,
    {
        self.busy
    }

    /// Replaces the display projection. The result says whether the row has
    /// to raise its change signal, which is always the case: the busy mask
    /// may have to be applied anew even to an equal projection.
    pub fn set_display(&mut self, display: RowDisplay) -> (notify: bool)
        ensures
            *final(self) == (RowItem { display, ..*old(self) }),
            notify,
    {
        self.display = display;
        true
    }

    /// Latches the busy state. The result says whether the row has to raise
    /// its change signal: only where the value changed.
    pub fn set_busy(&mut self, busy: bool) -> (notify: bool)
        ensures
            *final(self) == (RowItem { busy, ..*old(self) }),
            notify == (old(self).busy != busy),
    {
        if self.busy == busy {
            return false;
        }
        self.busy = busy;
        true
    }
}

impl Default for RowItem {
    fn default() -> (r: Self)
        ensures
            r.kind is Account,
            r.id is None,
            blank_display(r.display),
            r.icon_hint is None,
            r.issuer is None,
            !r.busy,
    {
        RowItem::new()
    }
}

/// A row that shows nothing has no text, no code and no control that is on.
pub proof fn blank_row_shows_nothing(d: RowDisplay)
    requires
        blank_display(d),
    ensures
        d.label@.len() == 0,
        d.kind == AccountKindSummary::Totp,
        d.code is Hidden && d.next_code is None && d.counter is None && d.progress is None,
        !d.copy_enabled && !d.next_button_visible && !d.next_button_enabled,
        !d.progress_visible && !d.kebab_visible && !d.kebab_enabled,
{
}

} // verus!

//! Decisions of the row context menu: whether it pops, which controllers a
//! row carries, and what happens to a menu that is already up.

use vstd::prelude::*;

verus! {

/// Kind of row that a menu decision is made for.
#[derive(Clone, Copy, Debug, PartialEq, Eq, Structural)]
pub enum RowMenuKind {
    /// Section heading: never has a menu.
    Section,
    /// Account row.
    Account,
}

impl RowMenuKind {
    /// The kind of a row, from whether it is a section heading.
    pub fn from_is_section(is_section: bool) -> (r: Self)
        ensures
            r == (if is_section {
                RowMenuKind::Section
            } else {
                RowMenuKind::Account
            }),
    {
        if is_section {
            RowMenuKind::Section
        } else {
            RowMenuKind::Account
        }
    }

    /// Whether the row is a section heading.
    pub fn is_section(self) -> (r: bool)
        ensures
            r == (self == RowMenuKind::Section),
    {
        match self {
            RowMenuKind::Section => true,
            RowMenuKind::Account => false,
        }
    }
}

/// Whether and how the menu pops.
#[derive(Clone, Copy, Debug, PartialEq, Eq, Structural)]
pub enum PopRowContextMenuDecision {
    /// No menu.
    Suppress,
    /// The menu pops.
    Pop {
        /// Whether "Copy code" is sensitive.
        copy_sensitive: bool,
        /// Whether the edit, QR and remove entries are sensitive.
        actions_sensitive: bool,
    },
}

/// Whether and how the menu of a row pops: never on a section heading; on an
/// account row always, with "Copy code" dimmed while the code is hidden and
/// the other entries dimmed while an effect runs.
pub fn pop_row_context_menu_decision(
    row_kind: RowMenuKind,
    busy: bool,
    hidden_hotp: bool,
) -> (r: PopRowContextMenuDecision)
    ensures
        r == (if row_kind == RowMenuKind::Section {
            PopRowContextMenuDecision::Suppress
        } else {
            PopRowContextMenuDecision::Pop {
                copy_sensitive: !hidden_hotp,
                actions_sensitive: !busy,
            }
        }),
{
    if row_kind.is_section() {
        return PopRowContextMenuDecision::Suppress;
    }
    PopRowContextMenuDecision::Pop { copy_sensitive: !hidden_hotp, actions_sensitive: !busy }
}

/// A key or button that raises the menu or one of its entries.
#[derive(Clone, Copy, Debug, PartialEq, Eq, Structural)]
pub enum RowMenuTrigger {
    /// Secondary mouse button.
    SecondaryClick,
    /// The `Menu` key.
    Menu,
    /// `Shift+F10`.
    ShiftF10,
    /// `Shift+E`, which opens the edit dialog.
    ShiftE,
}

impl RowMenuTrigger {
    /// The spelling of a keyboard trigger; a mouse button has none.
    pub fn shortcut_trigger_string(self) -> (r: Option<&'static str>)
        ensures
            match self {
                RowMenuTrigger::SecondaryClick => r is None,
                RowMenuTrigger::Menu => r is Some && r->0@ == "Menu"@,
                RowMenuTrigger::ShiftF10 => r is Some && r->0@ == "<Shift>F10"@,
                RowMenuTrigger::ShiftE => r is Some && r->0@ == "<Shift>e"@,
            },
    {
        match self {
            RowMenuTrigger::SecondaryClick => None,
            RowMenuTrigger::Menu => Some("Menu"),
            RowMenuTrigger::ShiftF10 => Some("<Shift>F10"),
            RowMenuTrigger::ShiftE => Some("<Shift>e"),
        }
    }
}

/// The event controllers that a row carries for the menu.
#[derive(Clone, Debug, PartialEq, Eq)]
pub struct ControllerSet {
    /// Whether the secondary-button gesture is installed.
    pub gesture_click: bool,
    /// The keyboard triggers, in order.
    pub shortcut_triggers: Vec<RowMenuTrigger>,
}

impl ControllerSet {
    /// No controller.
    pub fn empty() -> (r: Self)
        ensures
            !r.gesture_click,
            r.shortcut_triggers@.len() == 0,
    {
        ControllerSet { gesture_click: false, shortcut_triggers: Vec::new() }
    }

    /// Whether there is no controller.
    pub fn is_empty(&self) -> (r: bool)
        ensures
            r == (!self.gesture_click && self.shortcut_triggers@.len() == 0),
    {
        !self.gesture_click && self.shortcut_triggers.len() == 0
    }
}

/// The controllers of a row: none on a section heading; on an account row the
/// secondary-button gesture and the three keyboard triggers.
pub fn install_row_context_menu_controllers_decision(is_section: bool) -> (r: ControllerSet)
    ensures
        r.gesture_click == !is_section,
        r.shortcut_triggers@ == (if is_section {
            Seq::empty()
        } else {
            seq![RowMenuTrigger::Menu, RowMenuTrigger::ShiftF10, RowMenuTrigger::ShiftE]
        }),
{
    if is_section {
        return ControllerSet::empty();
    }
    let mut shortcut_triggers: Vec<RowMenuTrigger> = Vec::new();
    shortcut_triggers.push(RowMenuTrigger::Menu);
    shortcut_triggers.push(RowMenuTrigger::ShiftF10);
    shortcut_triggers.push(RowMenuTrigger::ShiftE);
    ControllerSet { gesture_click: true, shortcut_triggers }
}

/// What happens to a menu that is already up.
#[derive(Clone, Copy, Debug, PartialEq, Eq, Structural)]
pub enum PriorPopoverDisposition {
    /// There is none.
    Nothing,
    /// It is taken down.
    UnparentPrior,
}

impl PriorPopoverDisposition {
    /// Whether a menu has to be taken down.
    pub fn should_unparent(self) -> (r: bool)
        ensures
            r == (self == PriorPopoverDisposition::UnparentPrior),
    {
        match self {
            PriorPopoverDisposition::UnparentPrior => true,
            PriorPopoverDisposition::Nothing => false,
        }
    }
}

/// Why a menu that is up may have to go.
#[derive(Clone, Copy, Debug, PartialEq, Eq, Structural)]
pub enum PopoverInvalidation {
    /// Another menu is about to pop.
    Pop,
    /// The rows were refreshed.
    Refresh,
    /// The vault is locked.
    Lock,
}

/// What happens to a menu that is up: it goes, whatever the cause.
pub open spec fn disposition(cause: PopoverInvalidation, has_prior: bool) -> PriorPopoverDisposition {
    if has_prior {
        PriorPopoverDisposition::UnparentPrior
    } else {
        PriorPopoverDisposition::Nothing
    }
}

/// What happens to a menu that is up: it goes, whatever the cause.
pub fn prior_popover_disposition(
    _cause: PopoverInvalidation,
    has_prior: bool,
) -> (r: PriorPopoverDisposition)
    ensures
        r == disposition(_cause, has_prior),
{
    if has_prior {
        PriorPopoverDisposition::UnparentPrior
    } else {
        PriorPopoverDisposition::Nothing
    }
}

/// Number of menus up after an event that finds `up` of them: one goes where
/// the disposition says so, and a pop adds one.
pub open spec fn popovers_after(cause: PopoverInvalidation, up: int) -> int {
    let gone: int = if disposition(cause, up > 0) == PriorPopoverDisposition::UnparentPrior {
        1
    } else {
        0
    };
    let added: int = if cause == PopoverInvalidation::Pop {
        1
    } else {
        0
    };
    up - gone + added
}

/// At most one menu is up at any time, and none after a refresh or a lock.
pub proof fn at_most_one_popover(cause: PopoverInvalidation, up: int)
    requires
        0 <= up <= 1,
    ensures
        0 <= popovers_after(cause, up) <= 1,
        cause != PopoverInvalidation::Pop ==> popovers_after(cause, up) == 0,
{
}

/// What `Shift+E` does on a row.
#[derive(Clone, Copy, Debug, PartialEq, Eq, Structural)]
pub enum RowEditShortcutDecision {
    /// Opens the edit dialog.
    ActivateEdit,
    /// Does nothing.
    Reject,
}

impl RowEditShortcutDecision {
    /// Whether the edit dialog opens.
    pub fn activates(self) -> (r: bool)
        ensures
            r == (self == RowEditShortcutDecision::ActivateEdit),
    {
        match self {
            RowEditShortcutDecision::ActivateEdit => true,
            RowEditShortcutDecision::Reject => false,
        }
    }
}

/// `Shift+E` opens the edit dialog on an account row while no modal dialog is
/// open.
pub fn row_edit_shortcut_decision(is_section: bool, modal_open: bool) -> (r:
    RowEditShortcutDecision)
    ensures
        r == (if !is_section && !modal_open {
            RowEditShortcutDecision::ActivateEdit
        } else {
            RowEditShortcutDecision::Reject
        }),
{
    if is_section || modal_open {
        RowEditShortcutDecision::Reject
    } else {
        RowEditShortcutDecision::ActivateEdit
    }
}

/// Whatever the cause, a menu that is up goes, and where none is up there is
/// nothing to take down; only a new menu comes up.
pub proof fn old_popover_always_goes(cause: PopoverInvalidation, up: int)
    ensures
        disposition(cause, true) == PriorPopoverDisposition::UnparentPrior,
        disposition(cause, false) == PriorPopoverDisposition::Nothing,
        0 <= up <= 1 ==> popovers_after(cause, up) == (if cause == PopoverInvalidation::Pop {
            1int
        } else {
            0
        }),
{
}

} // verus!

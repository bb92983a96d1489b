use paladin_gtk::row_context_menu::install_row_context_menu_controllers_decision;
use paladin_gtk::row_context_menu::pop_row_context_menu_decision;
use paladin_gtk::row_context_menu::prior_popover_disposition;
use paladin_gtk::row_context_menu::row_edit_shortcut_decision;
use paladin_gtk::row_context_menu::PopRowContextMenuDecision;
use paladin_gtk::row_context_menu::PopoverInvalidation;
use paladin_gtk::row_context_menu::RowMenuKind;
use paladin_gtk::row_context_menu::RowMenuTrigger;

#[test]
fn menu_opens_on_account_rows_alone() {
    let section = RowMenuKind::from_is_section(true);
    assert!(section.is_section());
    assert!(matches!(
        pop_row_context_menu_decision(section, false, false),
        PopRowContextMenuDecision::Suppress
    ));
    assert!(matches!(
        pop_row_context_menu_decision(RowMenuKind::Account, false, false),
        PopRowContextMenuDecision::Pop { copy_sensitive: true, actions_sensitive: true }
    ));
    assert!(matches!(
        pop_row_context_menu_decision(RowMenuKind::Account, false, true),
        PopRowContextMenuDecision::Pop { copy_sensitive: false, actions_sensitive: true }
    ));
    assert!(matches!(
        pop_row_context_menu_decision(RowMenuKind::Account, true, false),
        PopRowContextMenuDecision::Pop { copy_sensitive: true, actions_sensitive: false }
    ));
}

#[test]
fn account_rows_carry_controllers() {
    assert!(install_row_context_menu_controllers_decision(true).is_empty());
    let set = install_row_context_menu_controllers_decision(false);
    assert!(set.gesture_click);
    assert_eq!(set.shortcut_triggers.len(), 3);
    assert_eq!(RowMenuTrigger::ShiftF10.shortcut_trigger_string(), Some("<Shift>F10"));
    assert_eq!(RowMenuTrigger::ShiftE.shortcut_trigger_string(), Some("<Shift>e"));
    assert_eq!(RowMenuTrigger::SecondaryClick.shortcut_trigger_string(), None);
}

#[test]
fn prior_popover_goes_first() {
    for cause in [PopoverInvalidation::Pop, PopoverInvalidation::Refresh, PopoverInvalidation::Lock] {
        assert!(prior_popover_disposition(cause, true).should_unparent());
    }
    assert!(!prior_popover_disposition(PopoverInvalidation::Pop, false).should_unparent());
}

#[test]
fn edit_shortcut_needs_a_free_row() {
    assert!(row_edit_shortcut_decision(false, false).activates());
    assert!(!row_edit_shortcut_decision(true, false).activates());
    assert!(!row_edit_shortcut_decision(false, true).activates());
}

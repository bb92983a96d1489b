use paladin_gtk::account::AccountId;
use paladin_gtk::account::AccountKindSummary;
use paladin_gtk::account::AccountRowModel;
use paladin_gtk::account_row::apply_busy_mask;
use paladin_gtk::account_row::hidden_row_display;
use paladin_gtk::account_row::AccountRowOutput;
use paladin_gtk::account_row::CodeDisplay;
use paladin_gtk::account_row::Countdown;
use paladin_gtk::account_row::RowDisplay;
use paladin_gtk::cells::account_cell;
use paladin_gtk::cells::button_request;
use paladin_gtk::cells::code_cell;
use paladin_gtk::cells::copy_cell;
use paladin_gtk::cells::kebab_cell;
use paladin_gtk::cells::next_code_cell;
use paladin_gtk::cells::route_row_output;
use paladin_gtk::cells::time_cell;
use paladin_gtk::cells::AccountListOutput;
use paladin_gtk::cells::ButtonCell;
use paladin_gtk::cells::HandlerSlots;
use paladin_gtk::cells::RowButton;
use paladin_gtk::row_item::RowItem;

fn shown() -> RowDisplay {
    RowDisplay {
        label: "Acme:bob".to_string(),
        kind: AccountKindSummary::Totp,
        code: CodeDisplay::Visible("123456".to_string()),
        next_code: Some("654321".to_string()),
        counter: Some(4),
        copy_enabled: true,
        next_button_visible: true,
        next_button_enabled: true,
        progress_visible: true,
        progress: Some(Countdown { remaining_secs: 18, period_secs: 30 }),
        kebab_visible: true,
        kebab_enabled: true,
    }
}

fn row(hint: Option<&str>) -> RowItem {
    let model = AccountRowModel {
        id: AccountId { bits: 5 },
        issuer: Some("Acme".to_string()),
        display_label: "Acme:bob".to_string(),
        icon_hint: hint.map(|h| h.to_string()),
        kind: AccountKindSummary::Totp,
    };
    RowItem::from_row_model(&model, shown())
}

#[test]
fn busy_mask_turns_off_what_changes_the_vault() {
    let busy = apply_busy_mask(shown(), true);
    assert!(!busy.copy_enabled && !busy.next_button_enabled && !busy.kebab_enabled);
    assert!(busy.next_button_visible && busy.kebab_visible && busy.progress_visible);
    assert_eq!(busy.label, "Acme:bob");
    let idle = apply_busy_mask(shown(), false);
    assert!(idle.copy_enabled && idle.next_button_enabled && idle.kebab_enabled);
}

#[test]
fn hidden_rows_follow_their_kind() {
    let model = |kind| AccountRowModel {
        id: AccountId { bits: 1 },
        issuer: None,
        display_label: "bob".to_string(),
        icon_hint: None,
        kind,
    };
    let hotp = hidden_row_display(&model(AccountKindSummary::Hotp));
    assert!(!hotp.copy_enabled && hotp.next_button_visible && hotp.next_button_enabled && !hotp.progress_visible);
    let totp = hidden_row_display(&model(AccountKindSummary::Totp));
    assert!(totp.copy_enabled && !totp.next_button_visible && totp.progress_visible);
    assert!(matches!(totp.code, CodeDisplay::Hidden));
    assert_eq!(totp.label, "bob");
}

#[test]
fn account_cell_shows_icon_and_label() {
    let cell = account_cell(&row(Some("acme")), |slug| slug == "acme");
    assert!(cell.selectable);
    assert_eq!(cell.icon_name.as_deref(), Some("acme"));
    assert_eq!(cell.label, "Acme:bob");
    assert!(!cell.heading);
    assert_eq!(cell.tooltip, Some("Copy current code"));
    let missing = account_cell(&row(Some("acme")), |_| false);
    assert_eq!(missing.icon_name.as_deref(), Some("dialog-password-symbolic"));
    let blank = account_cell(&row(Some("  ")), |_| true);
    assert_eq!(blank.icon_name.as_deref(), Some("dialog-password-symbolic"));
    let none = account_cell(&row(None), |_| true);
    assert_eq!(none.icon_name.as_deref(), Some("dialog-password-symbolic"));
}

#[test]
fn section_row_is_a_heading_alone() {
    let section = RowItem::section("Acme".to_string());
    let cell = account_cell(&section, |_| true);
    assert!(!cell.selectable);
    assert!(cell.icon_name.is_none());
    assert_eq!(cell.label, "Acme");
    assert!(cell.heading);
    assert!(cell.tooltip.is_none());
    assert!(code_cell(&section, apply_busy_mask).is_none());
    assert!(next_code_cell(&section).is_none());
    assert!(time_cell(&section).is_none());
    assert!(copy_cell(&section, apply_busy_mask).is_none());
    assert!(kebab_cell(&section, apply_busy_mask).is_none());
}

#[test]
fn busy_row_turns_its_buttons_off() {
    let mut item = row(None);
    let idle = code_cell(&item, apply_busy_mask).unwrap();
    assert_eq!(idle.counter, Some(4));
    assert!(matches!(&idle.code, CodeDisplay::Visible(d) if d == "123456"));
    assert!(idle.next_visible && idle.next_sensitive);
    assert_eq!(copy_cell(&item, apply_busy_mask), Some(ButtonCell { visible: true, sensitive: true }));
    assert!(next_code_cell(&item).unwrap().sensitive);
    item.set_busy(true);
    assert!(!code_cell(&item, apply_busy_mask).unwrap().next_sensitive);
    assert_eq!(copy_cell(&item, apply_busy_mask), Some(ButtonCell { visible: true, sensitive: false }));
    assert_eq!(kebab_cell(&item, apply_busy_mask), Some(ButtonCell { visible: true, sensitive: false }));
    assert!(!next_code_cell(&item).unwrap().sensitive);
}

#[test]
fn menu_button_follows_its_visibility() {
    let mut item = row(None);
    let mut display = shown();
    display.kebab_visible = false;
    item.set_display(display);
    assert_eq!(kebab_cell(&item, apply_busy_mask), Some(ButtonCell { visible: false, sensitive: true }));
}

#[test]
fn upcoming_code_has_its_prefix() {
    let mut item = row(None);
    assert_eq!(next_code_cell(&item).unwrap().label, "\u{21aa} 654321");
    let mut display = shown();
    display.next_code = None;
    item.set_display(display);
    let cell = next_code_cell(&item).unwrap();
    assert_eq!(cell.label, "");
    assert!(!cell.sensitive);
}

#[test]
fn time_cell_shows_the_countdown() {
    let cell = time_cell(&row(None)).unwrap();
    assert!(cell.visible);
    assert_eq!(cell.countdown, Some(Countdown { remaining_secs: 18, period_secs: 30 }));
    assert_eq!(cell.tooltip, "Copy current code");
}

#[test]
fn buttons_ask_for_the_shown_account() {
    let item = row(None);
    assert!(matches!(
        button_request(RowButton::Advance, &item),
        Some(AccountListOutput::AdvanceHotp(AccountId { bits: 5 }))
    ));
    assert!(matches!(
        button_request(RowButton::CopyNext, &item),
        Some(AccountListOutput::CopyNextCode(AccountId { bits: 5 }))
    ));
    assert!(matches!(
        button_request(RowButton::Copy, &item),
        Some(AccountListOutput::CopyCode(AccountId { bits: 5 }))
    ));
    assert!(button_request(RowButton::Copy, &RowItem::section("A".to_string())).is_none());
}

#[test]
fn row_actions_are_routed() {
    let id = AccountId { bits: 8 };
    assert!(matches!(
        route_row_output(AccountRowOutput::RequestRename(id)),
        AccountListOutput::OpenRenameDialog(AccountId { bits: 8 })
    ));
    assert!(matches!(
        route_row_output(AccountRowOutput::RequestRemove(id)),
        AccountListOutput::OpenRemoveDialog(AccountId { bits: 8 })
    ));
    assert!(matches!(
        route_row_output(AccountRowOutput::RequestCopy(id)),
        AccountListOutput::CopyCode(AccountId { bits: 8 })
    ));
    assert!(matches!(
        route_row_output(AccountRowOutput::RequestAdvance(id)),
        AccountListOutput::AdvanceHotp(AccountId { bits: 8 })
    ));
}

#[test]
fn recycled_cell_holds_one_handler() {
    let mut slots: HandlerSlots<&str> = HandlerSlots::new();
    assert_eq!(slots.bind(1, Some("first")), None);
    assert_eq!(slots.bind(2, Some("other")), None);
    assert_eq!(slots.bind(1, Some("second")), Some("first"));
    assert_eq!(slots.bind(1, None), Some("second"));
    assert_eq!(slots.unbind(1), None);
    assert_eq!(slots.unbind(2), Some("other"));
}

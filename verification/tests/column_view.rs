use paladin_gtk::account::AccountId;
use paladin_gtk::account::AccountKindSummary;
use paladin_gtk::account::AccountRowModel;
use paladin_gtk::column_view::account_column_sort_key;
use paladin_gtk::column_view::any_totp;
use paladin_gtk::column_view::apply_interleaved_splice_plan;
use paladin_gtk::column_view::apply_splice_plan;
use paladin_gtk::column_view::compare_account_row_items;
use paladin_gtk::column_view::compare_sort_keys;
use paladin_gtk::column_view::interleave_section_headers;
use paladin_gtk::column_view::next_code_column_visible;
use paladin_gtk::column_view::section_headers;
use paladin_gtk::column_view::splice_plan;
use paladin_gtk::column_view::InterleavedRow;
use paladin_gtk::column_view::RowKey;
use paladin_gtk::column_view::RowSource;
use paladin_gtk::column_view::SpliceOp;
use paladin_gtk::row_item::RowItem;
use std::cmp::Ordering;

fn ids(bits: &[u128]) -> Vec<AccountId> {
    bits.iter().map(|b| AccountId { bits: *b }).collect()
}

fn model(bits: u128, issuer: Option<&str>, label: &str, kind: AccountKindSummary) -> AccountRowModel {
    AccountRowModel {
        id: AccountId { bits },
        issuer: issuer.map(|s| s.to_string()),
        display_label: label.to_string(),
        icon_hint: None,
        kind,
    }
}

fn item(bits: u128, issuer: Option<&str>, label: &str) -> RowItem {
    let m = model(bits, issuer, label, AccountKindSummary::Totp);
    let mut display = RowItem::new().display();
    display.label = label.to_string();
    RowItem::from_row_model(&m, display)
}

fn run(old: &[AccountId], new: &[AccountId]) -> Vec<u128> {
    let mut store: Vec<AccountId> = old.to_vec();
    for op in splice_plan(old, new) {
        match op {
            SpliceOp::Remove { position, n_remove } => {
                let p = position as usize;
                store.drain(p..p + n_remove as usize);
            }
            SpliceOp::Insert { position, indices } => {
                for (k, i) in indices.iter().enumerate() {
                    store.insert(position as usize + k, new[*i]);
                }
            }
        }
    }
    store.iter().map(|id| id.bits).collect()
}

#[test]
fn equal_sequences_need_no_splice() {
    let rows = ids(&[1, 2]);
    let plan: Vec<SpliceOp> = splice_plan(&rows, &rows);
    assert!(plan.is_empty());
}

#[test]
fn removed_run_is_one_operation() {
    let plan = splice_plan(&ids(&[1, 2, 3, 4]), &ids(&[1, 4]));
    assert_eq!(format!("{:?}", plan), "[Remove { position: 1, n_remove: 2 }]");
}

#[test]
fn appended_run_is_one_operation() {
    let plan = splice_plan(&ids(&[1]), &ids(&[1, 2, 3]));
    assert_eq!(
        format!("{:?}", plan),
        "[Insert { position: 1, indices: [1, 2] }]"
    );
}

#[test]
fn plan_reaches_every_new_sequence() {
    let cases: [(&[u128], &[u128]); 9] = [
        (&[], &[]),
        (&[], &[1, 2]),
        (&[1, 2], &[]),
        (&[1, 2, 3], &[2]),
        (&[2], &[1, 2, 3]),
        (&[1, 2, 3], &[3, 2, 1]),
        (&[1, 2, 3, 4, 5], &[1, 6, 3, 7, 5]),
        (&[1, 2], &[3, 4]),
        (&[1, 1, 2], &[1, 2, 2]),
    ];
    for (old, new) in cases {
        assert_eq!(run(&ids(old), &ids(new)), new.to_vec(), "{:?} -> {:?}", old, new);
    }
}

#[test]
fn headings_stand_before_their_groups() {
    let headers = [
        Some("Acme".to_string()),
        None,
        Some("Bank".to_string()),
    ];
    let rows = interleave_section_headers(&headers, true);
    assert_eq!(
        format!("{:?}", rows),
        "[Section(\"Acme\"), Account(0), Account(1), Section(\"Bank\"), Account(2)]"
    );
    let flat = interleave_section_headers(&headers, false);
    assert_eq!(format!("{:?}", flat), "[Account(0), Account(1), Account(2)]");
}

#[test]
fn keys_name_rows() {
    let section = RowItem::section("Acme".to_string());
    assert!(RowKey::from_row_item(&section) == Some(RowKey::Section("Acme".to_string())));
    let row = item(7, None, "x");
    assert!(RowKey::from_row_item(&row) == Some(RowKey::Account(AccountId { bits: 7 })));
    assert!(RowKey::from_row_item(&RowItem::new()).is_none());
}

#[test]
fn refresh_reuses_surviving_rows() {
    let items = [item(1, None, "a"), item(2, None, "b"), item(3, None, "c")];
    let rows = [
        model(1, None, "a", AccountKindSummary::Totp),
        model(9, None, "n", AccountKindSummary::Totp),
        model(3, None, "c", AccountKindSummary::Totp),
    ];
    let splices = apply_splice_plan(&items, &rows);
    let fresh: usize = splices
        .iter()
        .flat_map(|s| s.additions.iter())
        .filter(|a| matches!(a, RowSource::Fresh(_)))
        .count();
    assert_eq!(fresh, 1);
}

#[test]
fn section_toggle_keeps_account_rows() {
    let items = [item(1, Some("Acme"), "Acme:a"), item(2, Some("Acme"), "Acme:b")];
    let rows = [
        model(1, Some("Acme"), "Acme:a", AccountKindSummary::Totp),
        model(2, Some("Acme"), "Acme:b", AccountKindSummary::Totp),
    ];
    let headers = [Some("Acme".to_string()), None];
    let (shown, splices) = apply_interleaved_splice_plan(&items, &rows, &headers, true);
    assert_eq!(shown.len(), 3);
    assert!(matches!(&shown[0], InterleavedRow::Section(t) if t == "Acme"));
    assert_eq!(splices.len(), 1);
    assert_eq!((splices[0].position, splices[0].n_remove), (0, 0));
    assert_eq!(splices[0].additions, vec![RowSource::Fresh(0)]);
}

#[test]
fn headings_start_the_groups() {
    let totp = AccountKindSummary::Totp;
    let rows = [
        model(1, None, "a", totp),
        model(2, Some("Acme"), "b", totp),
        model(3, Some("Acme"), "c", totp),
        model(4, Some("Beta"), "d", totp),
        model(5, None, "e", totp),
    ];
    let acme = Some("Acme".to_string());
    let beta = Some("Beta".to_string());
    let headers = section_headers(&rows);
    assert_eq!(headers, vec![None, acme, None, beta, None]);
    assert_eq!(
        interleave_section_headers(&headers[1..3], true),
        vec![InterleavedRow::Section("Acme".to_string()), InterleavedRow::Account(0), InterleavedRow::Account(1)]
    );
}

#[test]
fn counter_based_rows_alone_show_no_time() {
    let hotp = model(1, None, "a", AccountKindSummary::Hotp);
    let totp = model(2, None, "b", AccountKindSummary::Totp);
    assert!(!any_totp(&[]));
    assert!(!any_totp(&[hotp]));
    let hotp = model(1, None, "a", AccountKindSummary::Hotp);
    let rows = [hotp, totp];
    assert!(any_totp(&rows));
    assert!(next_code_column_visible(true, &rows));
    assert!(!next_code_column_visible(false, &rows));
    assert!(!next_code_column_visible(true, &rows[..1]));
}

#[test]
fn sort_key_folds_case() {
    let m = model(1, Some("ACME \u{c9}"), "ACME:Bob", AccountKindSummary::Totp);
    assert_eq!(
        account_column_sort_key(&m),
        ("acme \u{e9}".to_string(), "acme:bob".to_string())
    );
    let none = model(1, None, "Bob", AccountKindSummary::Totp);
    assert_eq!(account_column_sort_key(&none), (String::new(), "bob".to_string()));
}

#[test]
fn keys_compare_by_issuer_first() {
    let key = |a: &str, b: &str| (a.to_string(), b.to_string());
    assert_eq!(compare_sort_keys(&key("a", "z"), &key("b", "a")), Ordering::Less);
    assert_eq!(compare_sort_keys(&key("a", "z"), &key("a", "b")), Ordering::Greater);
    assert_eq!(compare_sort_keys(&key("a", "b"), &key("a", "b")), Ordering::Equal);
    assert_eq!(compare_sort_keys(&key("", "z"), &key("a", "a")), Ordering::Less);
    assert_eq!(compare_sort_keys(&key("ab", ""), &key("a", "")), Ordering::Greater);
}

#[test]
fn rows_compare_without_case() {
    let a = item(1, Some("acme"), "acme:x");
    let b = item(2, Some("ACME"), "ACME:X");
    let c = item(3, Some("Bank"), "Bank:a");
    let none = item(4, None, "zzz");
    assert_eq!(compare_account_row_items(&a, &b), Ordering::Equal);
    assert_eq!(compare_account_row_items(&a, &c), Ordering::Less);
    assert_eq!(compare_account_row_items(&c, &b), Ordering::Greater);
    assert_eq!(compare_account_row_items(&none, &a), Ordering::Less);
    let section = RowItem::section("Acme".to_string());
    assert_eq!(compare_account_row_items(&section, &c), Ordering::Equal);
    assert_eq!(compare_account_row_items(&c, &section), Ordering::Equal);
}

use paladin_gtk::account::AccountId;
use paladin_gtk::account::AccountKindSummary;
use paladin_gtk::account::AccountSummary;
use paladin_gtk::account_row::CodeDisplay;
use paladin_gtk::hotp_reveal::apply_advance_decision;
use paladin_gtk::hotp_reveal::apply_advance_outcome;
use paladin_gtk::hotp_reveal::deadline;
use paladin_gtk::hotp_reveal::expired_reveals;
use paladin_gtk::hotp_reveal::row_display_for_reveal;
use paladin_gtk::hotp_reveal::run_hotp_advance_worker;
use paladin_gtk::hotp_reveal::AdvanceDecision;
use paladin_gtk::hotp_reveal::AdvanceOutcome;
use paladin_gtk::hotp_reveal::HotpAdvanceWorkerInput;
use paladin_gtk::hotp_reveal::RevealEffect;
use paladin_gtk::hotp_reveal::RevealWindow;
use paladin_gtk::hotp_reveal::StagedCode;
use paladin_gtk::row_item::RowItem;
use paladin_gtk::vault::Code;
use paladin_gtk::vault::ErrorKind;
use paladin_gtk::vault::PaladinError;
use std::collections::HashMap;

fn code(digits: &str, counter: Option<u64>) -> Code {
    Code {
        code: digits.to_string(),
        valid_from: None,
        valid_until: None,
        seconds_remaining: None,
        counter_used: counter,
    }
}

fn failed(kind: ErrorKind) -> Result<Code, PaladinError> {
    Err(PaladinError { kind, rendered: "engine text".to_string() })
}

fn outcome(result: Result<Code, PaladinError>, staged: Option<Code>) -> AdvanceOutcome {
    AdvanceOutcome {
        account_id: AccountId { bits: 1 },
        result,
        staged_code: staged.and_then(StagedCode::from_code),
        completed_at: 1_000,
    }
}

#[test]
fn windows_last_whole_seconds() {
    assert_eq!(deadline(5, 0), 5);
    assert_eq!(deadline(5, 120), 120_000_000_005);
}

#[test]
fn saved_advance_shows_the_returned_code() {
    let mut windows: HashMap<u128, RevealWindow> = HashMap::new();
    let decision = apply_advance_outcome(
        outcome(Ok(code("111111", Some(3))), Some(code("222222", Some(9)))),
        120,
    );
    assert_eq!(
        apply_advance_decision(&mut windows, decision),
        RevealEffect::Refreshed { show_toast: false }
    );
    let window = &windows[&1];
    assert_eq!(window.code.as_str(), "111111");
    assert_eq!(window.counter_used, 3);
    assert_eq!(window.deadline, 120_000_001_000);
}

#[test]
fn uncertain_advance_shows_the_staged_code() {
    let mut windows: HashMap<u128, RevealWindow> = HashMap::new();
    let decision = apply_advance_outcome(
        outcome(failed(ErrorKind::SaveDurabilityUnconfirmed), Some(code("222222", Some(9)))),
        120,
    );
    assert_eq!(
        apply_advance_decision(&mut windows, decision),
        RevealEffect::Refreshed { show_toast: true }
    );
    assert_eq!(windows[&1].code.as_str(), "222222");
    assert!(matches!(
        apply_advance_outcome(outcome(failed(ErrorKind::SaveDurabilityUnconfirmed), None), 120),
        AdvanceDecision::Retain
    ));
}

#[test]
fn failed_advance_keeps_what_is_visible() {
    let mut windows: HashMap<u128, RevealWindow> = HashMap::new();
    let first = apply_advance_outcome(outcome(Ok(code("111111", Some(3))), None), 120);
    apply_advance_decision(&mut windows, first);
    for result in [
        failed(ErrorKind::SaveNotCommitted),
        failed(ErrorKind::InvalidState),
        Ok(code("333333", None)),
    ] {
        let decision = apply_advance_outcome(outcome(result, Some(code("222222", Some(9)))), 120);
        assert_eq!(apply_advance_decision(&mut windows, decision), RevealEffect::Retained);
        assert_eq!(windows[&1].code.as_str(), "111111");
    }
}

#[test]
fn windows_close_on_their_deadline() {
    let mut windows: HashMap<u128, RevealWindow> = HashMap::new();
    let decision = apply_advance_outcome(outcome(Ok(code("111111", Some(3))), None), 1);
    apply_advance_decision(&mut windows, decision);
    let mut later = outcome(Ok(code("444444", Some(4))), None);
    later.account_id = AccountId { bits: 2 };
    let decision = apply_advance_outcome(later, 10);
    apply_advance_decision(&mut windows, decision);
    assert!(expired_reveals(&windows, 1_000_000_999).is_empty());
    let due: Vec<u128> = expired_reveals(&windows, 1_000_001_000).iter().map(|id| id.bits).collect();
    assert_eq!(due, vec![1]);
    let mut all: Vec<u128> = expired_reveals(&windows, u128::MAX).iter().map(|id| id.bits).collect();
    all.sort();
    assert_eq!(all, vec![1, 2]);
}

#[test]
fn time_based_codes_are_not_staged() {
    assert!(StagedCode::from_code(code("1", None)).is_none());
    let staged = StagedCode::from_code(code("12", Some(5))).unwrap();
    assert_eq!((staged.counter_used, staged.code.as_str()), (5, "12"));
    assert!(StagedCode::from_peek(failed(ErrorKind::InvalidState)).is_none());
}

#[test]
fn advance_worker_peeks_first() {
    let input = HotpAdvanceWorkerInput {
        vault: vec!["fresh"],
        store: "store",
        account_id: AccountId { bits: 6 },
        now: 42,
    };
    let done = run_hotp_advance_worker(
        input,
        |vault, id| {
            assert_eq!((vault.len(), id.bits), (1, 6));
            Ok(code("777777", Some(8)))
        },
        |mut vault, _, _, now| {
            assert_eq!(now, 42);
            vault.push("advanced");
            (vault, failed(ErrorKind::SaveDurabilityUnconfirmed))
        },
        |vault| {
            assert_eq!(vault.len(), 2);
            99
        },
    );
    assert_eq!(done.vault, vec!["fresh", "advanced"]);
    assert_eq!(done.store, "store");
    assert_eq!(done.outcome.completed_at, 99);
    assert_eq!(done.outcome.account_id.bits, 6);
    assert_eq!(done.outcome.staged_code.unwrap().code.as_str(), "777777");
}

#[test]
fn open_window_is_projected_onto_its_row() {
    let summary = AccountSummary {
        id: AccountId { bits: 1 },
        label: "bob".to_string(),
        issuer: None,
        icon_hint: None,
        kind: AccountKindSummary::Hotp,
    };
    let decision = apply_advance_outcome(outcome(Ok(code("111111", Some(3))), None), 1);
    let window = match decision {
        AdvanceDecision::Replace(window) => window,
        _ => panic!("no window opens"),
    };
    let display = row_display_for_reveal(&summary, &window, |s, c| {
        let mut display = RowItem::new().display();
        display.label = s.label.clone();
        display.code = CodeDisplay::Visible(c.code.clone());
        display.counter = c.counter_used;
        display
    });
    assert_eq!(display.label, "bob");
    assert!(matches!(&display.code, CodeDisplay::Visible(d) if d == "111111"));
    assert_eq!(display.counter, Some(3));
}

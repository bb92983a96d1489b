//! Reveal windows of counter-based codes: what a worker that advanced a
//! counter makes visible, and when it is hidden again.
//!
//! Points in time are nanoseconds of a monotonic clock.

use crate::account::AccountId;
use crate::account::AccountSummary;
use crate::account_row::RowDisplay;
use crate::vault::Code;
use crate::vault::ErrorKind;
use crate::vault::PaladinError;
use crate::wiping::WipedText;
use std::collections::HashMap;
use vstd::prelude::*;

verus! {

/// Nanoseconds in a second.
pub const NANOS_PER_SEC: u128 = 1_000_000_000;

/// End of a window that opens at `now` and lasts `reveal_secs` seconds.
pub open spec fn window_end(now: u128, reveal_secs: u64) -> int {
    now + reveal_secs * NANOS_PER_SEC
}

/// End of a window that opens at `now` and lasts `reveal_secs` seconds.
pub fn deadline(now: u128, reveal_secs: u64) -> (r: u128)
    requires
        window_end(now, reveal_secs) <= u128::MAX,
    ensures
        r == window_end(now, reveal_secs),
{
    now + reveal_secs as u128 * NANOS_PER_SEC
}

/// A code that is visible for a while.
#[derive(Debug)]
pub struct RevealWindow {
    /// The account.
    pub account_id: AccountId,
    /// Counter that the code belongs to.
    pub counter_used: u64,
    /// The code.
    pub code: WipedText,
    /// When the window closes.
    pub deadline: u128,
}

/// A code that was computed before its counter was advanced.
#[derive(Debug)]
pub struct StagedCode {
    /// Counter that the code belongs to.
    pub counter_used: u64,
    /// The code.
    pub code: WipedText,
}

impl StagedCode {
    /// Stages a code; one without a counter is not staged.
    pub fn from_code(code: Code) -> (r: Option<Self>)
        ensures
            match code.counter_used {
                Some(counter) => r is Some && r->0.counter_used == counter && r->0.code@
                    == code.code@,
                None => r is None,
            },
    {
        match code.counter_used {
            Some(counter_used) => Some(
                StagedCode { counter_used, code: WipedText::new(code.code) },
            ),
            None => None,
        }
    }

    /// Stages what a look at the next code gave; a failed look stages
    /// nothing.
    pub fn from_peek(peeked: Result<Code, PaladinError>) -> (r: Option<Self>)
        ensures
            stages(peeked, r),
    {
        match peeked {
            Ok(code) => StagedCode::from_code(code),
            Err(_) => None,
        }
    }
}

/// What a worker that advanced a counter returns.
pub struct AdvanceOutcome {
    /// The account.
    pub account_id: AccountId,
    /// The code of the old counter, or why the counter was not advanced.
    pub result: Result<Code, PaladinError>,
    /// The code that was computed beforehand.
    pub staged_code: Option<StagedCode>,
    /// When the worker returned.
    pub completed_at: u128,
}

/// What happens to the visible code.
#[derive(Debug)]
pub enum AdvanceDecision {
    /// Show this window.
    Replace(RevealWindow),
    /// Show this window, and warn that the advance may be lost.
    ReplaceWithDurabilityWarning(RevealWindow),
    /// Leave what is visible.
    Retain,
}

/// Whether `window` shows the code `digits` of `counter` until `end`.
pub open spec fn shows(
    window: RevealWindow,
    id: AccountId,
    counter: u64,
    digits: Seq<char>,
    end: int,
) -> bool {
    &&& window.account_id == id
    &&& window.counter_used == counter
    &&& window.code@ == digits
    &&& window.deadline == end
}

/// What the outcome of an advance does to the visible code. An advance that
/// is saved shows the code that was returned; one whose durability is not
/// certain shows the code that was staged, with a warning; any other failure
/// leaves what is visible.
pub open spec fn decided(outcome: AdvanceOutcome, reveal_secs: u64, r: AdvanceDecision) -> bool {
    let end = window_end(outcome.completed_at, reveal_secs);
    match outcome.result {
        Ok(code) => match code.counter_used {
            Some(counter) => r matches AdvanceDecision::Replace(window) && shows(
                window,
                outcome.account_id,
                counter,
                code.code@,
                end,
            ),
            None => r is Retain,
        },
        Err(err) => if err.kind == ErrorKind::SaveDurabilityUnconfirmed {
            match outcome.staged_code {
                Some(staged) => r matches AdvanceDecision::ReplaceWithDurabilityWarning(window)
                    && shows(
                    window,
                    outcome.account_id,
                    staged.counter_used,
                    staged.code@,
                    end,
                ),
                None => r is Retain,
            }
        } else {
            r is Retain
        },
    }
}

/// Decides what the outcome of an advance does to the visible code.
pub fn apply_advance_outcome(outcome: AdvanceOutcome, reveal_secs: u64) -> (r: AdvanceDecision)
    requires
        window_end(outcome.completed_at, reveal_secs) <= u128::MAX,
    ensures
        decided(outcome, reveal_secs, r),
{
    let expiry: u128 = deadline(outcome.completed_at, reveal_secs);
    let account_id = outcome.account_id;
    match outcome.result {
        Ok(code) => match code.counter_used {
            Some(counter_used) => AdvanceDecision::Replace(
                RevealWindow {
                    account_id,
                    counter_used,
                    code: WipedText::new(code.code),
                    deadline: expiry,
                },
            ),
            None => AdvanceDecision::Retain,
        },
        Err(err) => match err.kind() {
            ErrorKind::SaveDurabilityUnconfirmed => match outcome.staged_code {
                Some(staged) => AdvanceDecision::ReplaceWithDurabilityWarning(
                    RevealWindow {
                        account_id,
                        counter_used: staged.counter_used,
                        code: staged.code,
                        deadline: expiry,
                    },
                ),
                None => AdvanceDecision::Retain,
            },
            _ => AdvanceDecision::Retain,
        },
    }
}

/// What the worker is handed. `V` is the open vault and `S` its store.
pub struct HotpAdvanceWorkerInput<V, S> {
    /// The vault.
    pub vault: V,
    /// Its store.
    pub store: S,
    /// The account.
    pub account_id: AccountId,
    /// Time of the advance, in nanoseconds since the epoch.
    pub now: u128,
}

/// What the worker hands back: vault and store always return.
pub struct HotpAdvanceWorkerCompletion<V, S> {
    /// What came of the advance.
    pub outcome: AdvanceOutcome,
    /// The vault as the advance left it.
    pub vault: V,
    /// Its store.
    pub store: S,
}

/// Whether `staged` is what a look at the next code stages.
pub open spec fn stages(peeked: Result<Code, PaladinError>, staged: Option<StagedCode>) -> bool {
    match peeked {
        Ok(code) => match code.counter_used {
            Some(counter) => staged is Some && staged->0.counter_used == counter && staged->0.code@
                == code.code@,
            None => staged is None,
        },
        Err(_) => staged is None,
    }
}

/// Advances a counter. `peek` looks at the next code, which is staged before
/// `advance` advances the counter and saves. `clock` is read last: it is
/// handed the vault that the advance returned.
pub fn run_hotp_advance_worker<
    V,
    S,
    P: FnOnce(&V, AccountId) -> Result<Code, PaladinError>,
    A: FnOnce(V, &S, AccountId, u128) -> (V, Result<Code, PaladinError>),
    C: FnOnce(&V) -> u128,
>(input: HotpAdvanceWorkerInput<V, S>, peek: P, advance: A, clock: C) -> (r:
    HotpAdvanceWorkerCompletion<V, S>)
    requires
        call_requires(peek, (&input.vault, input.account_id)),
        call_requires(advance, (input.vault, &input.store, input.account_id, input.now)),
        forall|vault: V, result: Result<Code, PaladinError>|
            #[trigger] call_ensures(
                advance,
                (input.vault, &input.store, input.account_id, input.now),
                (vault, result),
            ) ==> call_requires(clock, (&vault,)),
    ensures
        r.store == input.store,
        r.outcome.account_id == input.account_id,
        exists|peeked: Result<Code, PaladinError>| #[trigger]
            call_ensures(peek, (&input.vault, input.account_id), peeked) && stages(
                peeked,
                r.outcome.staged_code,
            ),
        call_ensures(
            advance,
            (input.vault, &input.store, input.account_id, input.now),
            (r.vault, r.outcome.result),
        ),
        call_ensures(clock, (&r.vault,), r.outcome.completed_at),
{
    let staged_code = StagedCode::from_peek(peek(&input.vault, input.account_id));
    let (vault, result) = advance(input.vault, &input.store, input.account_id, input.now);
    let completed_at: u128 = clock(&vault);
    HotpAdvanceWorkerCompletion {
        outcome: AdvanceOutcome {
            account_id: input.account_id,
            result,
            staged_code,
            completed_at,
        },
        vault,
        store: input.store,
    }
}

/// Text of the toast about an advance whose durability is not certain.
pub fn format_hotp_durability_unconfirmed_toast() -> (r: &'static str)
    ensures
        r@ == "Counter advanced, but durability could not be confirmed."@,
{
    "Counter advanced, but durability could not be confirmed."
}

/// Text of the toast about an advance that failed.
pub fn format_hotp_advance_failed_toast() -> (r: &'static str)
    ensures
        r@ == "Could not advance HOTP counter."@,
{
    "Could not advance HOTP counter."
}

/// What the list has to do after a decision.
#[derive(Clone, Copy, Debug, PartialEq, Eq, Structural)]
pub enum RevealEffect {
    /// Show the account's row anew.
    Refreshed {
        /// Whether to warn that the advance may be lost.
        show_toast: bool,
    },
    /// Nothing.
    Retained,
}

/// The open windows after a decision, by the account's identity, and what
/// the list has to do.
pub open spec fn reveal_step(windows: Map<u128, RevealWindow>, decision: AdvanceDecision) -> (
    Map<u128, RevealWindow>,
    RevealEffect,
) {
    match decision {
        AdvanceDecision::Replace(window) => (
            windows.insert(window.account_id.bits, window),
            RevealEffect::Refreshed { show_toast: false },
        ),
        AdvanceDecision::ReplaceWithDurabilityWarning(window) => (
            windows.insert(window.account_id.bits, window),
            RevealEffect::Refreshed { show_toast: true },
        ),
        AdvanceDecision::Retain => (windows, RevealEffect::Retained),
    }
}

/// Opens or replaces the window that a decision shows. The windows are kept
/// by the account's identity.
pub fn apply_advance_decision(
    windows: &mut HashMap<u128, RevealWindow>,
    decision: AdvanceDecision,
) -> (r: RevealEffect)
    ensures
        (final(windows)@, r) == reveal_step(old(windows)@, decision),
{
    broadcast use vstd::std_specs::hash::group_hash_axioms;

    match decision {
        AdvanceDecision::Replace(window) => {
            windows.insert(window.account_id.bits, window);
            RevealEffect::Refreshed { show_toast: false }
        },
        AdvanceDecision::ReplaceWithDurabilityWarning(window) => {
            windows.insert(window.account_id.bits, window);
            RevealEffect::Refreshed { show_toast: true }
        },
        AdvanceDecision::Retain => RevealEffect::Retained,
    }
}

/// Whether the window of an account is open and due to close.
pub open spec fn due(windows: Map<u128, RevealWindow>, bits: u128, now: u128) -> bool {
    windows.contains_key(bits) && now >= windows[bits].deadline
}

/// The accounts whose windows are due to close, each of them once, in no
/// particular order.
pub fn expired_reveals(windows: &HashMap<u128, RevealWindow>, now: u128) -> (r: Vec<AccountId>)
    ensures
        r@.no_duplicates(),
        forall|id: AccountId| #[trigger] r@.contains(id) <==> due(windows@, id.bits, now),
{
    broadcast use vstd::std_specs::hash::group_hash_axioms;

    let mut r: Vec<AccountId> = Vec::new();
    for entry in it: windows.iter()
        invariant
            it.seq().no_duplicates(),
            forall|i: int|
                0 <= i < it.seq().len() ==> windows@.contains_key(*(#[trigger] it.seq()[i]).0)
                    && windows@[*it.seq()[i].0] == *it.seq()[i].1,
            forall|k: u128| #[trigger]
                windows@.contains_key(k) ==> it.seq().contains((&k, &windows@[k])),
            r@.no_duplicates(),
            forall|id: AccountId| #[trigger]
                r@.contains(id) ==> exists|i: int|
                    0 <= i < it.index() && *(#[trigger] it.seq()[i]).0 == id.bits && now
                        >= it.seq()[i].1.deadline,
            forall|i: int|
                0 <= i < it.index() && now >= (#[trigger] it.seq()[i]).1.deadline ==> r@.contains(
                    AccountId { bits: *it.seq()[i].0 },
                ),
    {
        let (bits, window) = entry;
        if now >= window.deadline {
            let id = AccountId { bits: *bits };
            let ghost before = r@;
            proof {
                if before.contains(id) {
                    let i = choose|i: int|
                        0 <= i < it.index() && *(#[trigger] it.seq()[i]).0 == id.bits && now
                            >= it.seq()[i].1.deadline;
                    assert(it.seq()[i] == it.seq()[it.index()]);
                }
            }
            r.push(id);
            assert(r@ == before.push(id));
            assert forall|other: AccountId| #[trigger] r@.contains(other) implies other == id
                || before.contains(other) by {}
            assert forall|other: AccountId| before.contains(other) implies #[trigger] r@.contains(
                other,
            ) by {
                let k = choose|k: int| 0 <= k < before.len() && before[k] == other;
                assert(r@[k] == other);
            }
            assert(r@[before.len() as int] == id);
        }
    }
    proof {
        assert forall|id: AccountId| due(windows@, id.bits, now) implies #[trigger] r@.contains(
            id,
        ) by {
            assert(windows@.contains_key(id.bits));
            assert(id == AccountId { bits: id.bits });
        }
    }
    r
}

/// The row of an account whose window is open. `project` projects the account
/// and a code onto the row.
pub fn row_display_for_reveal<F: FnOnce(&AccountSummary, &Code) -> RowDisplay>(
    summary: &AccountSummary,
    window: &RevealWindow,
    project: F,
) -> (r: RowDisplay)
    requires
        forall|code: Code| call_requires(project, (summary, &code)),
    ensures
        exists|code: Code|
            {
                &&& code.code@ == window.code@
                &&& code.valid_from is None
                &&& code.valid_until is None
                &&& code.seconds_remaining is None
                &&& code.counter_used == Some(window.counter_used)
                &&& #[trigger] call_ensures(project, (summary, &code), r)
            },
{
    let code = Code {
        code: window.code.as_str().to_owned(),
        valid_from: None,
        valid_until: None,
        seconds_remaining: None,
        counter_used: Some(window.counter_used),
    };
    project(summary, &code)
}

/// An advance that is saved opens the account's window with the code that was
/// returned, whatever was staged. The window closes at its end and no sooner,
/// and no other account's window is touched.
pub proof fn saved_advance_opens_window(
    windows: Map<u128, RevealWindow>,
    outcome: AdvanceOutcome,
    reveal_secs: u64,
    decision: AdvanceDecision,
    now: u128,
)
    requires
        outcome.result is Ok,
        outcome.result->Ok_0.counter_used is Some,
        decided(outcome, reveal_secs, decision),
    ensures
        ({
            let id = outcome.account_id;
            let code = outcome.result->Ok_0;
            let end = window_end(outcome.completed_at, reveal_secs);
            let (after, effect) = reveal_step(windows, decision);
            &&& effect == RevealEffect::Refreshed { show_toast: false }
            &&& after.contains_key(id.bits)
            &&& shows(after[id.bits], id, code.counter_used->0, code.code@, end)
            &&& due(after, id.bits, now) <==> now >= end
            &&& after.remove(id.bits) == windows.remove(id.bits)
        }),
{
    let id = outcome.account_id;
    let after = reveal_step(windows, decision).0;
    assert(after.remove(id.bits) =~= windows.remove(id.bits));
}

/// An advance whose durability is not certain opens the account's window with
/// the code that was staged, and warns.
pub proof fn uncertain_advance_opens_staged_window(
    windows: Map<u128, RevealWindow>,
    outcome: AdvanceOutcome,
    reveal_secs: u64,
    decision: AdvanceDecision,
    now: u128,
)
    requires
        outcome.result is Err,
        outcome.result->Err_0.kind == ErrorKind::SaveDurabilityUnconfirmed,
        outcome.staged_code is Some,
        decided(outcome, reveal_secs, decision),
    ensures
        ({
            let id = outcome.account_id;
            let staged = outcome.staged_code->0;
            let end = window_end(outcome.completed_at, reveal_secs);
            let (after, effect) = reveal_step(windows, decision);
            &&& effect == RevealEffect::Refreshed { show_toast: true }
            &&& after.contains_key(id.bits)
            &&& shows(after[id.bits], id, staged.counter_used, staged.code@, end)
            &&& due(after, id.bits, now) <==> now >= end
            &&& after.remove(id.bits) == windows.remove(id.bits)
        }),
{
    let id = outcome.account_id;
    let after = reveal_step(windows, decision).0;
    assert(after.remove(id.bits) =~= windows.remove(id.bits));
}

/// Any other failed advance leaves every window as it is.
pub proof fn failed_advance_keeps_windows(
    windows: Map<u128, RevealWindow>,
    outcome: AdvanceOutcome,
    reveal_secs: u64,
    decision: AdvanceDecision,
)
    requires
        outcome.result is Err,
        outcome.result->Err_0.kind != ErrorKind::SaveDurabilityUnconfirmed,
        decided(outcome, reveal_secs, decision),
    ensures
        reveal_step(windows, decision) == (windows, RevealEffect::Retained),
{
}

/// What an advance shows: a code that was saved is shown under its own counter,
/// one whose durability is not certain is shown as it was staged, and without a
/// counter or a staged code nothing changes. A window lasts as many seconds as
/// asked for, from the return of the worker.
pub proof fn windows_show_the_code(
    outcome: AdvanceOutcome,
    reveal_secs: u64,
    decision: AdvanceDecision,
)
    requires
        decided(outcome, reveal_secs, decision),
    ensures
        decision matches AdvanceDecision::Replace(window) ==> {
            &&& outcome.result matches Ok(code) && {
                &&& code.counter_used == Some(window.counter_used)
                &&& window.code@ == code.code@
            }
            &&& window.account_id == outcome.account_id
            &&& window.deadline == outcome.completed_at + reveal_secs * 1_000_000_000
        },
        decision matches AdvanceDecision::ReplaceWithDurabilityWarning(window) ==> {
            &&& outcome.result matches Err(err) && err.kind == ErrorKind::SaveDurabilityUnconfirmed
            &&& outcome.staged_code matches Some(staged) && {
                &&& staged.counter_used == window.counter_used
                &&& window.code@ == staged.code@
            }
            &&& window.account_id == outcome.account_id
            &&& window.deadline == outcome.completed_at + reveal_secs * 1_000_000_000
        },
        decision is Replace <==> outcome.result is Ok && outcome.result->Ok_0.counter_used is Some,
        decision is ReplaceWithDurabilityWarning <==> outcome.result is Err
            && outcome.result->Err_0.kind == ErrorKind::SaveDurabilityUnconfirmed
            && outcome.staged_code is Some,
{
}

/// A window lasts as many seconds as asked for.
pub proof fn window_lasts_its_seconds(now: u128, reveal_secs: u64)
    ensures
        window_end(now, reveal_secs) == now + reveal_secs * 1_000_000_000,
{
}

/// A decision opens its own account's window and keeps every other one; it warns
/// where the advance may be lost and not otherwise.
pub proof fn decision_opens_its_window(
    windows: Map<u128, RevealWindow>,
    decision: AdvanceDecision,
    bits: u128,
)
    ensures
        ({
            let (after, effect) = reveal_step(windows, decision);
            match decision {
                AdvanceDecision::Retain => after == windows && effect == RevealEffect::Retained,
                AdvanceDecision::Replace(window) => {
                    &&& effect == RevealEffect::Refreshed { show_toast: false }
                    &&& after.contains_key(bits) <==> bits == window.account_id.bits
                        || windows.contains_key(bits)
                    &&& bits == window.account_id.bits ==> after[bits] == window
                    &&& bits != window.account_id.bits && windows.contains_key(bits)
                        ==> after[bits] == windows[bits]
                },
                AdvanceDecision::ReplaceWithDurabilityWarning(window) => {
                    &&& effect == RevealEffect::Refreshed { show_toast: true }
                    &&& after.contains_key(bits) <==> bits == window.account_id.bits
                        || windows.contains_key(bits)
                    &&& bits == window.account_id.bits ==> after[bits] == window
                    &&& bits != window.account_id.bits && windows.contains_key(bits)
                        ==> after[bits] == windows[bits]
                },
            }
        }),
{
}

/// A window is due from its end on, and a window that is not open never is.
pub proof fn windows_close_at_their_end(
    windows: Map<u128, RevealWindow>,
    bits: u128,
    now: u128,
)
    ensures
        !windows.contains_key(bits) ==> !due(windows, bits, now),
        windows.contains_key(bits) && now < windows[bits].deadline ==> !due(windows, bits, now),
        windows.contains_key(bits) && windows[bits].deadline <= now ==> due(windows, bits, now),
{
}

/// What is staged is the code that was looked at, under its own counter; a failed
/// look and a code without a counter stage nothing.
pub proof fn staged_code_is_the_one_looked_at(
    peeked: Result<Code, PaladinError>,
    staged: Option<StagedCode>,
)
    requires
        stages(peeked, staged),
    ensures
        staged is Some <==> peeked is Ok && peeked->Ok_0.counter_used is Some,
        staged is Some ==> peeked->Ok_0.counter_used == Some(staged->0.counter_used)
            && staged->0.code@ == peeked->Ok_0.code@,
{
}

} // verus!

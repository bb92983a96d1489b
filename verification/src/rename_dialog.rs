//! The rename dialog: a new label for an account.
//!
//! The engine validates the label on every keystroke; the dialog keeps the raw
//! text and submits the label in stored form. A label that did not change is
//! submitted like any other.

pub use crate::inline::InlineError;
pub use crate::inline::InlineWarning;

use crate::account::find_summary;
use crate::account::summary_position;
use crate::account::AccountId;
use crate::account::AccountSummary;
use crate::account_row::labelled;
use crate::account_row::summary_display_label;
use crate::inline::inline_error;
use crate::inline::inline_warning;
use crate::text::joined3;
use crate::text::optional_text;
use crate::vault::ErrorKind;
use crate::vault::PaladinError;
use vstd::prelude::*;
use vstd::string::StringExecFns;

verus! {

/// What the validation of a label says.
#[derive(Clone, Debug)]
pub enum SubmitOutcome {
    /// The label in stored form.
    Proceed(String),
    /// The label is refused.
    InlineError(InlineError),
}

/// What the engine's answer on a label means for the dialog.
pub open spec fn validation(answer: Result<String, PaladinError>) -> SubmitOutcome {
    match answer {
        Ok(label) => SubmitOutcome::Proceed(label),
        Err(err) => SubmitOutcome::InlineError(inline_error(err)),
    }
}

/// Turns the engine's answer on a label into what the dialog shows. The label
/// before the rename plays no part.
pub fn classify_submit(answer: &Result<String, PaladinError>) -> (r: SubmitOutcome)
    ensures
        r == validation(*answer),
{
    match answer {
        Ok(label) => SubmitOutcome::Proceed(label.clone()),
        Err(err) => SubmitOutcome::InlineError(InlineError::from_error(err)),
    }
}

/// What a failed rename means for the dialog.
#[derive(Clone, Debug)]
pub enum RenameErrorOutcome {
    /// The rename was rolled back: the label goes back too.
    RestorePrior(InlineError),
    /// The rename is saved, but its durability is not certain.
    KeepNewWithWarning(InlineWarning),
    /// The rename was refused.
    InlineError(InlineError),
}

/// What a failed rename means for the dialog.
pub open spec fn rename_error(err: PaladinError) -> RenameErrorOutcome {
    match err.kind {
        ErrorKind::SaveNotCommitted => RenameErrorOutcome::RestorePrior(inline_error(err)),
        ErrorKind::SaveDurabilityUnconfirmed => RenameErrorOutcome::KeepNewWithWarning(
            inline_warning(err),
        ),
        _ => RenameErrorOutcome::InlineError(inline_error(err)),
    }
}

/// Decides what a failed rename means for the dialog.
pub fn classify_rename_error(err: &PaladinError) -> (r: RenameErrorOutcome)
    ensures
        r == rename_error(*err),
{
    match err.kind() {
        ErrorKind::SaveNotCommitted => {
            RenameErrorOutcome::RestorePrior(InlineError::from_error(err))
        },
        ErrorKind::SaveDurabilityUnconfirmed => {
            RenameErrorOutcome::KeepNewWithWarning(InlineWarning::from_error(err))
        },
        _ => RenameErrorOutcome::InlineError(InlineError::from_error(err)),
    }
}

/// What a worker's result means for the dialog.
#[derive(Clone, Debug)]
pub enum RenameWorkerEffect {
    /// The rename is saved.
    Success,
    /// The rename failed.
    Failure(RenameErrorOutcome),
}

/// What a worker's result means for the dialog.
pub open spec fn rename_effect(result: Result<(), PaladinError>) -> RenameWorkerEffect {
    match result {
        Ok(_) => RenameWorkerEffect::Success,
        Err(err) => RenameWorkerEffect::Failure(rename_error(err)),
    }
}

/// Decides what a worker's result means for the dialog.
pub fn rename_worker_effect(result: &Result<(), PaladinError>) -> (r: RenameWorkerEffect)
    ensures
        r == rename_effect(*result),
{
    match result {
        Ok(()) => RenameWorkerEffect::Success,
        Err(err) => RenameWorkerEffect::Failure(classify_rename_error(err)),
    }
}

/// What the worker is handed. `V` is the open vault and `S` its store.
#[derive(Debug)]
pub struct RenameWorkerInput<V, S> {
    /// The vault.
    pub vault: V,
    /// Its store.
    pub store: S,
    /// The renamed account.
    pub account_id: AccountId,
    /// The label in stored form.
    pub label: String,
    /// Time of the rename, in nanoseconds since the epoch.
    pub now: u128,
}

/// What the worker hands back: vault and store always return.
#[derive(Debug)]
pub struct RenameWorkerCompletion<V, S> {
    /// What the result means for the dialog.
    pub effect: RenameWorkerEffect,
    /// The vault as the rename left it.
    pub vault: V,
    /// Its store.
    pub store: S,
}

/// Renames an account. `rename` renames and saves; it hands the vault back,
/// whether or not it succeeds.
pub fn run_rename_worker<
    V,
    S,
    F: FnOnce(V, &S, AccountId, &String, u128) -> (V, Result<(), PaladinError>),
>(input: RenameWorkerInput<V, S>, rename: F) -> (r: RenameWorkerCompletion<V, S>)
    requires
        call_requires(
            rename,
            (input.vault, &input.store, input.account_id, &input.label, input.now),
        ),
    ensures
        r.store == input.store,
        exists|vault: V, result: Result<(), PaladinError>|
            {
                &&& #[trigger] call_ensures(
                    rename,
                    (input.vault, &input.store, input.account_id, &input.label, input.now),
                    (vault, result),
                )
                &&& r.vault == vault
                &&& r.effect == rename_effect(result)
            },
{
    let (vault, result) = rename(
        input.vault,
        &input.store,
        input.account_id,
        &input.label,
        input.now,
    );
    RenameWorkerCompletion { effect: rename_worker_effect(&result), vault, store: input.store }
}

/// Prefix of the line that reports the mounted dialog.
pub const RENAME_DIALOG_MARKER_PREFIX: &'static str = "paladin-gtk: rename_dialog_account=";

/// The line that reports the mounted dialog. `account_id` is the identity in
/// text form.
pub fn format_rename_dialog_marker(account_id: &str, display_label: &str) -> (r: String)
    ensures
        r@ == "paladin-gtk: rename_dialog_account="@ + account_id@ + " label="@ + display_label@,
{
    let mut text = joined3(RENAME_DIALOG_MARKER_PREFIX, account_id, " label=");
    text.append(display_label);
    text
}

/// Title of the dialog.
pub fn format_rename_dialog_title() -> (r: &'static str)
    ensures
        r@ == "Rename account"@,
{
    "Rename account"
}

/// Title of the label row.
pub fn format_rename_dialog_label_title() -> (r: &'static str)
    ensures
        r@ == "Label"@,
{
    "Label"
}

/// Caption of the cancel button.
pub fn format_rename_dialog_cancel_label() -> (r: &'static str)
    ensures
        r@ == "Cancel"@,
{
    "Cancel"
}

/// Subtitle that names the renamed account.
pub fn format_rename_dialog_subtitle(display_label: &str) -> (r: String)
    ensures
        r@ == "Renaming "@ + display_label@ + "."@,
{
    joined3("Renaming ", display_label, ".")
}

/// What the dialog is opened with.
#[derive(Clone, Debug)]
pub struct RenameDialogInit {
    /// Stable identity of the account.
    pub account_id: AccountId,
    /// Label as stored.
    pub current_label: String,
    /// `<issuer>:<label>` text.
    pub display_label: String,
}

/// What to open the dialog with for an account; nothing where the account is
/// gone.
pub fn decide_rename_target(summaries: &[AccountSummary], id: AccountId) -> (r: Option<
    RenameDialogInit,
>)
    ensures
        match summary_position(summaries@, id) {
            Some(k) => {
                &&& r is Some
                &&& r->0.account_id == id
                &&& r->0.current_label@ == summaries@[k].label@
                &&& r->0.display_label@ == labelled(
                    optional_text(summaries@[k].issuer),
                    summaries@[k].label@,
                )
            },
            None => r is None,
        },
{
    match find_summary(summaries, id) {
        Some(summary) => Some(
            RenameDialogInit {
                account_id: summary.id,
                current_label: summary.label.clone(),
                display_label: summary_display_label(summary),
            },
        ),
        None => None,
    }
}

/// State of the dialog in mathematical terms.
pub struct RenameView {
    /// The renamed account.
    pub account_id: AccountId,
    /// Label when the dialog opened.
    pub prior: Seq<char>,
    /// Raw text of the label row.
    pub draft: Seq<char>,
    /// What the validation of the draft says.
    pub validation: SubmitOutcome,
    /// What the last failed rename means.
    pub outcome: Option<RenameErrorOutcome>,
}

/// State of the dialog.
#[derive(Clone, Debug)]
pub struct RenameDialogState {
    account_id: AccountId,
    prior_label: String,
    draft: String,
    last_validation: SubmitOutcome,
    worker_outcome: Option<RenameErrorOutcome>,
}

impl View for RenameDialogState {
    type V = RenameView;

    closed spec fn view(&self) -> RenameView {
        RenameView {
            account_id: self.account_id,
            prior: self.prior_label@,
            draft: self.draft@,
            validation: self.last_validation,
            outcome: self.worker_outcome,
        }
    }
}

impl RenameDialogState {
    /// A dialog that was just opened: the row shows the stored label, and
    /// `answer` is the engine's answer on it.
    pub fn new(init: &RenameDialogInit, answer: &Result<String, PaladinError>) -> (r: Self)
        ensures
            r@ == (RenameView {
                account_id: init.account_id,
                prior: init.current_label@,
                draft: init.current_label@,
                validation: validation(*answer),
                outcome: None,
            }),
    {
        RenameDialogState {
            account_id: init.account_id,
            prior_label: init.current_label.clone(),
            draft: init.current_label.clone(),
            last_validation: classify_submit(answer),
            worker_outcome: None,
        }
    }

    /// The renamed account.
    pub fn account_id(&self) -> (r: AccountId)
        ensures
            r == self@.account_id,
    {
        self.account_id
    }

    /// Raw text of the label row.
    pub fn draft(&self) -> (r: &str)
        ensures
            r@ == self@.draft,
    {
        self.draft.as_str()
    }

    /// What the validation of the draft says.
    pub fn last_validation(&self) -> (r: &SubmitOutcome)
        ensures
            *r == self@.validation,
    {
        &self.last_validation
    }

    /// Replaces the draft and its validation together. The last result no
    /// longer applies.
    pub fn set_draft(&mut self, draft: String, answer: &Result<String, PaladinError>)
        ensures
            final(self)@ == (RenameView {
                draft: draft@,
                validation: validation(*answer),
                outcome: None,
                ..old(self)@
            }),
    {
        self.last_validation = classify_submit(answer);
        self.draft = draft;
        self.worker_outcome = None;
    }

    /// What the last failed rename means.
    pub fn worker_outcome(&self) -> (r: Option<&RenameErrorOutcome>)
        ensures
            r is Some == self@.outcome is Some,
            r is Some ==> *r->0 == self@.outcome->0,
    {
        match &self.worker_outcome {
            Some(outcome) => Some(outcome),
            None => None,
        }
    }

    /// Error of the label row.
    pub fn inline_error(&self) -> (r: Option<&InlineError>)
        ensures
            match self@.validation {
                SubmitOutcome::InlineError(err) => r is Some && *r->0 == err,
                SubmitOutcome::Proceed(_) => r is None,
            },
    {
        match &self.last_validation {
            SubmitOutcome::InlineError(err) => Some(err),
            SubmitOutcome::Proceed(_) => None,
        }
    }

    /// What a submission of the draft leads to. `answer` is the engine's
    /// answer on the draft.
    pub fn submit(&self, answer: &Result<String, PaladinError>) -> (r: SubmitOutcome)
        ensures
            r == validation(*answer),
    {
        classify_submit(answer)
    }
}

/// What happens in the dialog.
#[derive(Clone, Debug)]
pub enum RenameDialogMsg {
    /// The label was edited.
    DraftChanged(String),
    /// The cancel button was pressed.
    Cancel,
    /// The save button was pressed.
    SubmitClicked,
    /// The rename failed.
    WorkerFailed(RenameErrorOutcome),
}

/// What the dialog asks for.
#[derive(Clone, Debug, PartialEq, Eq)]
pub enum RenameDialogOutput {
    /// Drop the dialog.
    Cancel,
    /// Save the label.
    SubmitLabel {
        /// The renamed account.
        account_id: AccountId,
        /// The label in stored form.
        label: String,
    },
}

/// The dialog after a message, and what it asks for. `answer` is the engine's
/// answer on the draft as the message leaves it.
pub open spec fn rename_step(
    s: RenameView,
    msg: RenameDialogMsg,
    answer: Result<String, PaladinError>,
) -> (RenameView, Option<RenameDialogOutput>) {
    match msg {
        RenameDialogMsg::DraftChanged(text) => (
            RenameView { draft: text@, validation: validation(answer), outcome: None, ..s },
            None,
        ),
        RenameDialogMsg::Cancel => (s, Some(RenameDialogOutput::Cancel)),
        RenameDialogMsg::SubmitClicked => (
            RenameView { outcome: None, ..s },
            match answer {
                Ok(label) => Some(
                    RenameDialogOutput::SubmitLabel { account_id: s.account_id, label },
                ),
                Err(_) => None,
            },
        ),
        RenameDialogMsg::WorkerFailed(outcome) => (
            if outcome is RestorePrior {
                RenameView {
                    draft: s.prior,
                    validation: validation(answer),
                    outcome: Some(outcome),
                    ..s
                }
            } else {
                RenameView { outcome: Some(outcome), ..s }
            },
            None,
        ),
    }
}

/// The label that the engine is asked about: the draft as the message leaves
/// it.
pub fn label_to_check<'a>(state: &'a RenameDialogState, msg: &'a RenameDialogMsg) -> (r: &'a str)
    ensures
        forall|answer: Result<String, PaladinError>| #[trigger]
            rename_step(state@, *msg, answer).0.draft == r@,
{
    match msg {
        RenameDialogMsg::DraftChanged(text) => text.as_str(),
        RenameDialogMsg::WorkerFailed(RenameErrorOutcome::RestorePrior(_)) => {
            state.prior_label.as_str()
        },
        _ => state.draft(),
    }
}

/// Applies a message to the dialog and returns what it asks for. `answer` is
/// the engine's answer on the draft as the message leaves it.
pub fn apply_msg(
    state: &mut RenameDialogState,
    msg: RenameDialogMsg,
    answer: &Result<String, PaladinError>,
) -> (r: Option<RenameDialogOutput>)
    ensures
        (final(state)@, r) == rename_step(old(state)@, msg, *answer),
{
    match msg {
        RenameDialogMsg::DraftChanged(text) => {
            state.set_draft(text, answer);
            None
        },
        RenameDialogMsg::Cancel => Some(RenameDialogOutput::Cancel),
        RenameDialogMsg::SubmitClicked => {
            state.worker_outcome = None;
            match state.submit(answer) {
                SubmitOutcome::Proceed(label) => Some(
                    RenameDialogOutput::SubmitLabel { account_id: state.account_id(), label },
                ),
                SubmitOutcome::InlineError(_) => None,
            }
        },
        RenameDialogMsg::WorkerFailed(outcome) => {
            if matches!(outcome, RenameErrorOutcome::RestorePrior(_)) {
                let prior = state.prior_label.clone();
                state.set_draft(prior, answer);
            }
            state.worker_outcome = Some(outcome);
            None
        },
    }
}

/// No message turns the dialog to another account or forgets the label that
/// was stored.
pub proof fn target_never_changes(
    s: RenameView,
    msg: RenameDialogMsg,
    answer: Result<String, PaladinError>,
)
    ensures
        ({
            let (next, request) = rename_step(s, msg, answer);
            &&& next.account_id == s.account_id
            &&& next.prior == s.prior
            &&& request matches Some(RenameDialogOutput::SubmitLabel { account_id, .. })
                ==> account_id == s.account_id
        }),
{
}

/// The validation shown is that of the text shown: where `answers` says what
/// the engine answers on each text, every message keeps the two in step.
pub proof fn validation_follows_draft(
    s: RenameView,
    msg: RenameDialogMsg,
    answers: spec_fn(Seq<char>) -> Result<String, PaladinError>,
    answer: Result<String, PaladinError>,
)
    requires
        s.validation == validation(answers(s.draft)),
        answer == answers(rename_step(s, msg, answer).0.draft),
    ensures
        ({
            let next = rename_step(s, msg, answer).0;
            next.validation == validation(answers(next.draft))
        }),
{
}

/// A rename that was rolled back puts the stored label back on screen, with
/// the reason; one that was saved keeps the new label.
pub proof fn rollback_restores_label(
    s: RenameView,
    err: PaladinError,
    answer: Result<String, PaladinError>,
)
    ensures
        ({
            let next = rename_step(
                s,
                RenameDialogMsg::WorkerFailed(rename_error(err)),
                answer,
            ).0;
            &&& next.outcome == Some(rename_error(err))
            &&& err.kind == ErrorKind::SaveNotCommitted ==> next.draft == s.prior
            &&& err.kind != ErrorKind::SaveNotCommitted ==> next.draft == s.draft
        }),
{
}

/// A label that did not change is submitted like any other: what a
/// submission leads to rests on the engine's answer alone.
pub proof fn same_label_is_submitted(s: RenameView, answer: Result<String, PaladinError>)
    requires
        s.draft == s.prior,
        answer is Ok,
    ensures
        rename_step(s, RenameDialogMsg::SubmitClicked, answer).1 == Some(
            RenameDialogOutput::SubmitLabel { account_id: s.account_id, label: answer->Ok_0 },
        ),
{
}

/// A new attempt and a new keystroke drop the result of the last attempt.
pub proof fn retry_drops_result(
    s: RenameView,
    text: String,
    answer: Result<String, PaladinError>,
)
    ensures
        rename_step(s, RenameDialogMsg::SubmitClicked, answer).0.outcome is None,
        rename_step(s, RenameDialogMsg::DraftChanged(text), answer).0.outcome is None,
{
}

/// A press of the save button submits the label that the engine returned, for
/// the account that the dialog was opened for; a refused label is not submitted.
/// The rows stay as they are.
pub proof fn accepted_label_is_submitted(s: RenameView, answer: Result<String, PaladinError>)
    ensures
        ({
            let (next, request) = rename_step(s, RenameDialogMsg::SubmitClicked, answer);
            &&& next == (RenameView { outcome: None, ..s })
            &&& match answer {
                Ok(stored) => request matches Some(
                    RenameDialogOutput::SubmitLabel { account_id, label },
                ) && account_id == s.account_id && label@ == stored@,
                Err(_) => request is None,
            }
        }),
{
}

/// The row holds what was last typed, and shows what the engine says of it: the
/// label in stored form, or why it is refused, in the engine's words.
pub proof fn typed_label_is_kept(
    s: RenameView,
    text: String,
    answer: Result<String, PaladinError>,
)
    ensures
        ({
            let (next, request) = rename_step(s, RenameDialogMsg::DraftChanged(text), answer);
            &&& request is None
            &&& next.draft == text@
            &&& next.account_id == s.account_id && next.prior == s.prior
            &&& match answer {
                Ok(stored) => next.validation == SubmitOutcome::Proceed(stored),
                Err(err) => next.validation matches SubmitOutcome::InlineError(shown) && shown.kind
                    == err.kind && shown.rendered == err.rendered,
            }
        }),
{
}

/// What a finished rename means rests on the kind of the error: a rename that was
/// rolled back and one that may be lost are told apart from a refusal, each in the
/// engine's words. Cancelling leaves the dialog as it is.
pub proof fn result_of_rename_is_shown(
    s: RenameView,
    result: Result<(), PaladinError>,
    answer: Result<String, PaladinError>,
)
    ensures
        rename_effect(result) is Success <==> result is Ok,
        result matches Err(err) ==> {
            let outcome = rename_effect(result)->Failure_0;
            let (next, request) = rename_step(s, RenameDialogMsg::WorkerFailed(outcome), answer);
            &&& outcome is RestorePrior <==> err.kind == ErrorKind::SaveNotCommitted
            &&& outcome is KeepNewWithWarning <==> err.kind == ErrorKind::SaveDurabilityUnconfirmed
            &&& outcome matches RenameErrorOutcome::RestorePrior(shown) ==> shown.kind == err.kind
                && shown.rendered == err.rendered
            &&& outcome matches RenameErrorOutcome::KeepNewWithWarning(shown) ==> shown.kind
                == err.kind && shown.rendered == err.rendered
            &&& outcome matches RenameErrorOutcome::InlineError(shown) ==> shown.kind == err.kind
                && shown.rendered == err.rendered
            &&& request is None
            &&& next.outcome == Some(outcome)
            &&& err.kind != ErrorKind::SaveNotCommitted ==> next == (RenameView {
                outcome: Some(outcome),
                ..s
            })
            &&& err.kind == ErrorKind::SaveNotCommitted ==> next.draft == s.prior && (
            answer is Ok ==> next.validation == SubmitOutcome::Proceed(answer->Ok_0))
        },
        rename_step(s, RenameDialogMsg::Cancel, answer) == (s, Some(RenameDialogOutput::Cancel)),
{
}

} // verus!

//! The remove dialog: confirmation before an account is removed.

pub use crate::account_row::summary_display_label;
pub use crate::inline::InlineError;
pub use crate::inline::InlineWarning;

use crate::account::find_summary;
use crate::account::summary_position;
use crate::account::AccountId;
use crate::account::AccountSummary;
use crate::account_row::labelled;
use crate::inline::inline_error;
use crate::inline::inline_warning;
use crate::text::joined3;
use crate::text::optional_text;
use crate::vault::ErrorKind;
use crate::vault::InvalidStateError;
use crate::vault::PaladinError;
use vstd::prelude::*;
use vstd::string::StringExecFns;

verus! {

/// The error for an account that is gone before it could be removed.
pub fn account_not_found_error() -> (r: InvalidStateError)
    ensures
        r.operation@ == "remove"@,
        r.state@ == "account_not_found"@,
{
    InvalidStateError { operation: "remove", state: "account_not_found" }
}

/// Whether a removal goes through to the save: it does if there was an
/// account to remove.
pub fn removal_result<A>(removed: &Option<A>) -> (r: Result<(), InvalidStateError>)
    ensures
        r is Ok <==> removed is Some,
        r matches Err(err) ==> err.operation@ == "remove"@ && err.state@ == "account_not_found"@,
{
    if removed.is_none() {
        return Err(account_not_found_error());
    }
    Ok(())
}

/// What a failed removal means for the dialog.
#[derive(Clone, Debug)]
pub enum RemoveErrorOutcome {
    /// The removal was rolled back.
    RestorePrior(InlineError),
    /// The removal is saved, but its durability is not certain.
    KeepRemovedWithWarning(InlineWarning),
    /// The removal was refused.
    InlineError(InlineError),
}

/// What a failed removal means for the dialog.
pub open spec fn remove_error(err: PaladinError) -> RemoveErrorOutcome {
    match err.kind {
        ErrorKind::SaveNotCommitted => RemoveErrorOutcome::RestorePrior(inline_error(err)),
        ErrorKind::SaveDurabilityUnconfirmed => RemoveErrorOutcome::KeepRemovedWithWarning(
            inline_warning(err),
        ),
        _ => RemoveErrorOutcome::InlineError(inline_error(err)),
    }
}

/// Decides what a failed removal means for the dialog.
pub fn classify_remove_error(err: &PaladinError) -> (r: RemoveErrorOutcome)
    ensures
        r == remove_error(*err),
{
    match err.kind() {
        ErrorKind::SaveNotCommitted => {
            RemoveErrorOutcome::RestorePrior(InlineError::from_error(err))
        },
        ErrorKind::SaveDurabilityUnconfirmed => {
            RemoveErrorOutcome::KeepRemovedWithWarning(InlineWarning::from_error(err))
        },
        _ => RemoveErrorOutcome::InlineError(InlineError::from_error(err)),
    }
}

/// What a worker's result means for the dialog.
#[derive(Clone, Debug)]
pub enum RemoveWorkerEffect {
    /// The removal is saved.
    Success,
    /// The removal failed.
    Failure(RemoveErrorOutcome),
}

/// What a worker's result means for the dialog.
pub open spec fn remove_effect(result: Result<(), PaladinError>) -> RemoveWorkerEffect {
    match result {
        Ok(_) => RemoveWorkerEffect::Success,
        Err(err) => RemoveWorkerEffect::Failure(remove_error(err)),
    }
}

/// Decides what a worker's result means for the dialog.
pub fn remove_worker_effect(result: &Result<(), PaladinError>) -> (r: RemoveWorkerEffect)
    ensures
        r == remove_effect(*result),
{
    match result {
        Ok(()) => RemoveWorkerEffect::Success,
        Err(err) => RemoveWorkerEffect::Failure(classify_remove_error(err)),
    }
}

/// What the worker is handed. `V` is the open vault and `S` its store.
#[derive(Debug)]
pub struct RemoveWorkerInput<V, S> {
    /// The vault.
    pub vault: V,
    /// Its store.
    pub store: S,
    /// The account to be removed.
    pub account_id: AccountId,
}

/// What the worker hands back: vault and store always return.
#[derive(Debug)]
pub struct RemoveWorkerCompletion<V, S> {
    /// What the result means for the dialog.
    pub effect: RemoveWorkerEffect,
    /// The vault as the removal left it.
    pub vault: V,
    /// Its store.
    pub store: S,
}

/// Removes an account. `remove` removes and saves; it hands the vault back,
/// whether or not it succeeds.
pub fn run_remove_worker<V, S, F: FnOnce(V, &S, AccountId) -> (V, Result<(), PaladinError>)>(
    input: RemoveWorkerInput<V, S>,
    remove: F,
) -> (r: RemoveWorkerCompletion<V, S>)
    requires
        call_requires(remove, (input.vault, &input.store, input.account_id)),
    ensures
        r.store == input.store,
        exists|vault: V, result: Result<(), PaladinError>|
            {
                &&& #[trigger] call_ensures(
                    remove,
                    (input.vault, &input.store, input.account_id),
                    (vault, result),
                )
                &&& r.vault == vault
                &&& r.effect == remove_effect(result)
            },
{
    let (vault, result) = remove(input.vault, &input.store, input.account_id);
    RemoveWorkerCompletion { effect: remove_worker_effect(&result), vault, store: input.store }
}

/// Prefix of the line that reports the mounted dialog.
pub const REMOVE_DIALOG_MARKER_PREFIX: &'static str = "paladin-gtk: remove_dialog_account=";

/// The line that reports the mounted dialog. `account_id` is the identity in
/// text form.
pub fn format_remove_dialog_marker(account_id: &str, display_label: &str) -> (r: String)
    ensures
        r@ == "paladin-gtk: remove_dialog_account="@ + account_id@ + " label="@ + display_label@,
{
    let mut text = joined3(REMOVE_DIALOG_MARKER_PREFIX, account_id, " label=");
    text.append(display_label);
    text
}

/// Caption of the remove button.
pub fn format_remove_dialog_remove_label() -> (r: &'static str)
    ensures
        r@ == "Remove"@,
{
    "Remove"
}

/// Caption of the cancel button.
pub fn format_remove_dialog_cancel_label() -> (r: &'static str)
    ensures
        r@ == "Cancel"@,
{
    "Cancel"
}

/// Name of the icon.
pub fn format_remove_dialog_icon_name() -> (r: &'static str)
    ensures
        r@ == "user-trash-symbolic"@,
{
    "user-trash-symbolic"
}

/// Title of the dialog.
pub fn format_remove_dialog_title() -> (r: &'static str)
    ensures
        r@ == "Remove account"@,
{
    "Remove account"
}

/// Subtitle that names the account.
pub fn format_remove_dialog_subtitle(display_label: &str) -> (r: String)
    ensures
        r@ == "Removing "@ + display_label@ + "."@,
{
    joined3("Removing ", display_label, ".")
}

/// What the dialog is opened with.
#[derive(Debug)]
pub struct RemoveDialogInit {
    /// Stable identity of the account.
    pub account_id: AccountId,
    /// `<issuer>:<label>` text.
    pub display_label: String,
}

impl Clone for RemoveDialogInit {
    fn clone(&self) -> (r: Self)
        ensures
            r == *self,
    {
        RemoveDialogInit {
            account_id: self.account_id,
            display_label: self.display_label.clone(),
        }
    }
}

/// What to open the dialog with for an account; nothing where the account is
/// gone.
pub fn decide_remove_target(summaries: &[AccountSummary], id: AccountId) -> (r: Option<
    RemoveDialogInit,
>)
    ensures
        match summary_position(summaries@, id) {
            Some(k) => r is Some && r->0.account_id == id && r->0.display_label@ == labelled(
                optional_text(summaries@[k].issuer),
                summaries@[k].label@,
            ),
            None => r is None,
        },
{
    match find_summary(summaries, id) {
        Some(summary) => Some(
            RemoveDialogInit {
                account_id: summary.id,
                display_label: summary_display_label(summary),
            },
        ),
        None => None,
    }
}

/// State of the dialog in mathematical terms.
pub struct RemoveView {
    /// What the dialog was opened with.
    pub init: RemoveDialogInit,
    /// What the last failed removal means.
    pub outcome: Option<RemoveErrorOutcome>,
}

/// State of the dialog.
#[derive(Clone, Debug)]
pub struct RemoveDialogState {
    init: RemoveDialogInit,
    worker_outcome: Option<RemoveErrorOutcome>,
}

impl View for RemoveDialogState {
    type V = RemoveView;

    closed spec fn view(&self) -> RemoveView {
        RemoveView { init: self.init, outcome: self.worker_outcome }
    }
}

impl RemoveDialogState {
    /// A dialog that was just opened.
    pub fn new(init: &RemoveDialogInit) -> (r: Self)
        ensures
            r@ == (RemoveView { init: *init, outcome: None }),
    {
        RemoveDialogState { init: init.clone(), worker_outcome: None }
    }

    /// The account to be removed.
    pub fn account_id(&self) -> (r: AccountId)
        ensures
            r == self@.init.account_id,
    {
        self.init.account_id
    }

    /// `<issuer>:<label>` text of the account.
    pub fn display_label(&self) -> (r: &str)
        ensures
            r@ == self@.init.display_label@,
    {
        self.init.display_label.as_str()
    }

    /// What the last failed removal means.
    pub fn worker_outcome(&self) -> (r: Option<&RemoveErrorOutcome>)
        ensures
            r is Some == self@.outcome is Some,
            r is Some ==> *r->0 == self@.outcome->0,
    {
        match &self.worker_outcome {
            Some(outcome) => Some(outcome),
            None => None,
        }
    }

    /// Error of the last attempt.
    pub fn inline_error(&self) -> (r: Option<&InlineError>)
        ensures
            match self@.outcome {
                Some(RemoveErrorOutcome::RestorePrior(err)) => r is Some && *r->0 == err,
                Some(RemoveErrorOutcome::InlineError(err)) => r is Some && *r->0 == err,
                _ => r is None,
            },
    {
        match &self.worker_outcome {
            Some(RemoveErrorOutcome::RestorePrior(err)) => Some(err),
            Some(RemoveErrorOutcome::InlineError(err)) => Some(err),
            _ => None,
        }
    }

    /// Warning of the last attempt.
    pub fn inline_warning(&self) -> (r: Option<&InlineWarning>)
        ensures
            match self@.outcome {
                Some(RemoveErrorOutcome::KeepRemovedWithWarning(warning)) => r is Some && *r->0
                    == warning,
                _ => r is None,
            },
    {
        match &self.worker_outcome {
            Some(RemoveErrorOutcome::KeepRemovedWithWarning(warning)) => Some(warning),
            _ => None,
        }
    }
}

/// What happens in the dialog.
#[derive(Clone, Debug)]
pub enum RemoveDialogMsg {
    /// The cancel button was pressed.
    Cancel,
    /// The remove button was pressed.
    Confirm,
    /// The removal failed.
    WorkerFailed(RemoveErrorOutcome),
}

/// What the dialog asks for.
#[derive(Clone, Debug, PartialEq, Eq)]
pub enum RemoveDialogOutput {
    /// Drop the dialog.
    Cancel,
    /// Remove the account.
    SubmitConfirm {
        /// The account to be removed.
        account_id: AccountId,
    },
}

/// The dialog after a message, and what it asks for.
pub open spec fn remove_step(s: RemoveView, msg: RemoveDialogMsg) -> (
    RemoveView,
    Option<RemoveDialogOutput>,
) {
    match msg {
        RemoveDialogMsg::Cancel => (s, Some(RemoveDialogOutput::Cancel)),
        RemoveDialogMsg::Confirm => (
            RemoveView { outcome: None, ..s },
            Some(RemoveDialogOutput::SubmitConfirm { account_id: s.init.account_id }),
        ),
        RemoveDialogMsg::WorkerFailed(outcome) => (
            RemoveView { outcome: Some(outcome), ..s },
            None,
        ),
    }
}

/// Applies a message to the dialog and returns what it asks for.
pub fn apply_msg(state: &mut RemoveDialogState, msg: RemoveDialogMsg) -> (r: Option<
    RemoveDialogOutput,
>)
    ensures
        (final(state)@, r) == remove_step(old(state)@, msg),
{
    match msg {
        RemoveDialogMsg::Cancel => Some(RemoveDialogOutput::Cancel),
        RemoveDialogMsg::Confirm => {
            state.worker_outcome = None;
            Some(RemoveDialogOutput::SubmitConfirm { account_id: state.account_id() })
        },
        RemoveDialogMsg::WorkerFailed(outcome) => {
            state.worker_outcome = Some(outcome);
            None
        },
    }
}

/// No message turns the dialog to another account, and only a confirmation
/// asks for a removal.
pub proof fn only_confirmation_removes(s: RemoveView, msg: RemoveDialogMsg)
    ensures
        ({
            let (next, request) = remove_step(s, msg);
            &&& next.init == s.init
            &&& request matches Some(RemoveDialogOutput::SubmitConfirm { account_id })
                ==> msg is Confirm && account_id == s.init.account_id
        }),
{
}

/// A new attempt drops the result of the last one.
pub proof fn retry_drops_result(s: RemoveView)
    ensures
        remove_step(s, RemoveDialogMsg::Confirm).0.outcome is None,
{
}

/// A confirmation asks for the removal of the account that the dialog was opened
/// for, and cancelling leaves the dialog as it is.
pub proof fn confirmation_removes_the_account(s: RemoveView)
    ensures
        remove_step(s, RemoveDialogMsg::Confirm).1 == Some(
            RemoveDialogOutput::SubmitConfirm { account_id: s.init.account_id },
        ),
        remove_step(s, RemoveDialogMsg::Cancel) == (s, Some(RemoveDialogOutput::Cancel)),
{
}

/// What a finished removal means rests on the kind of the error: a removal that
/// was rolled back and one that may be lost are told apart from a refusal, each in
/// the engine's words.
pub proof fn result_of_removal_is_shown(s: RemoveView, result: Result<(), PaladinError>)
    ensures
        remove_effect(result) is Success <==> result is Ok,
        result matches Err(err) ==> {
            let outcome = remove_effect(result)->Failure_0;
            let (next, request) = remove_step(s, RemoveDialogMsg::WorkerFailed(outcome));
            &&& outcome is RestorePrior <==> err.kind == ErrorKind::SaveNotCommitted
            &&& outcome is KeepRemovedWithWarning <==> err.kind
                == ErrorKind::SaveDurabilityUnconfirmed
            &&& outcome matches RemoveErrorOutcome::RestorePrior(shown) ==> shown.kind == err.kind
                && shown.rendered == err.rendered
            &&& outcome matches RemoveErrorOutcome::KeepRemovedWithWarning(shown) ==> shown.kind
                == err.kind && shown.rendered == err.rendered
            &&& outcome matches RemoveErrorOutcome::InlineError(shown) ==> shown.kind == err.kind
                && shown.rendered == err.rendered
            &&& request is None
            &&& next == (RemoveView { outcome: Some(outcome), ..s })
        },
{
}

} // verus!

//! The destroy dialog: confirmation before a vault is deleted. The destructive
//! response stays off until the word `yes` is typed.

pub use crate::inline::InlineError;

use crate::inline::inline_error;
use crate::paths::lossy_text;
use crate::paths::FilePath;
use crate::text::joined3;
use crate::text::same_text;
use crate::text::trim;
use crate::text::is_white_space;
use crate::text::only_white_space_is_trimmed;
use crate::text::padding_is_trimmed;
use crate::text::trimmed;
use crate::vault::DestroyReport;
use crate::vault::ErrorKind;
use crate::vault::PaladinError;
use crate::wiping::wipe_string;
use vstd::prelude::*;
use vstd::string::StringExecFns;

verus! {

/// Suffix of a backup.
pub const BACKUP_SUFFIX: &'static str = ".bak";

/// Path of the backup of a vault.
pub fn backup_path_for(vault_path: &FilePath) -> (r: FilePath)
    ensures
        r.bytes@ == vault_path.bytes@ + vstd::utf8::encode_utf8(".bak"@),
{
    vault_path.with_suffix(BACKUP_SUFFIX)
}

/// Whether there is a backup beside a vault. `file_exists` says whether there is a
/// file; without an answer the dialog claims none.
pub fn probe_backup_present<F: FnOnce(&FilePath) -> Option<bool>>(
    vault_path: &FilePath,
    file_exists: F,
) -> (r: bool)
    requires
        forall|backup: FilePath|
            backup.bytes@ == vault_path.bytes@ + vstd::utf8::encode_utf8(".bak"@)
                ==> #[trigger] call_requires(file_exists, (&backup,)),
    ensures
        exists|backup: FilePath, answer: Option<bool>|
            {
                &&& backup.bytes@ == vault_path.bytes@ + vstd::utf8::encode_utf8(".bak"@)
                &&& #[trigger] call_ensures(file_exists, (&backup,), answer)
                &&& r == (answer == Some(true))
            },
{
    let backup: FilePath = backup_path_for(vault_path);
    let answer: Option<bool> = file_exists(&backup);
    match answer {
        Some(present) => present,
        None => false,
    }
}

/// What a failed deletion means for the dialog.
#[derive(Clone, Debug, PartialEq, Eq)]
pub enum DestroyErrorOutcome {
    /// The deletion failed; the dialog stays open.
    InlineError(InlineError),
}

/// Decides what a failed deletion means for the dialog.
pub fn classify_destroy_error(err: &PaladinError) -> (r: DestroyErrorOutcome)
    ensures
        r == DestroyErrorOutcome::InlineError(inline_error(*err)),
{
    DestroyErrorOutcome::InlineError(InlineError::from_error(err))
}

/// What a worker's result means for the dialog.
#[derive(Clone, Debug, PartialEq, Eq)]
pub enum DestroyWorkerEffect {
    /// The vault is deleted.
    Success(DestroyReport),
    /// There was no vault.
    VaultMissing,
    /// The deletion failed.
    Failure(DestroyErrorOutcome),
}

/// What a worker's result means for the dialog. A vault that is gone already
/// is no failure.
pub open spec fn destroy_effect(result: Result<DestroyReport, PaladinError>) -> DestroyWorkerEffect {
    match result {
        Ok(report) => DestroyWorkerEffect::Success(report),
        Err(err) => if err.kind == ErrorKind::VaultMissing {
            DestroyWorkerEffect::VaultMissing
        } else {
            DestroyWorkerEffect::Failure(DestroyErrorOutcome::InlineError(inline_error(err)))
        },
    }
}

/// Deletes a vault. `destroy` does so.
pub fn run_destroy_worker<F: FnOnce(&FilePath) -> Result<DestroyReport, PaladinError>>(
    path: FilePath,
    destroy: F,
) -> (r: DestroyWorkerEffect)
    requires
        call_requires(destroy, (&path,)),
    ensures
        exists|result: Result<DestroyReport, PaladinError>| #[trigger]
            call_ensures(destroy, (&path,), result) && r == destroy_effect(result),
{
    let result: Result<DestroyReport, PaladinError> = destroy(&path);
    destroy_worker_effect(&result)
}

/// Decides what a worker's result means for the dialog.
pub fn destroy_worker_effect(result: &Result<DestroyReport, PaladinError>) -> (r:
    DestroyWorkerEffect)
    ensures
        r == destroy_effect(*result),
{
    match result {
        Ok(report) => DestroyWorkerEffect::Success(*report),
        Err(err) => match err.kind() {
            ErrorKind::VaultMissing => DestroyWorkerEffect::VaultMissing,
            _ => DestroyWorkerEffect::Failure(classify_destroy_error(err)),
        },
    }
}

/// Prefix of the line that reports the mounted dialog.
pub const DESTROY_DIALOG_MARKER_PREFIX: &'static str = "paladin-gtk: destroy_dialog_path=";

/// The line that reports the mounted dialog.
pub fn format_destroy_dialog_marker(path: &FilePath, backup_present: bool) -> (r: String)
    ensures
        r@ == "paladin-gtk: destroy_dialog_path="@ + lossy_text(path.bytes@) + (if backup_present {
            " backup_present=true"@
        } else {
            " backup_present=false"@
        }),
{
    joined3(
        DESTROY_DIALOG_MARKER_PREFIX,
        path.display().as_str(),
        if backup_present {
            " backup_present=true"
        } else {
            " backup_present=false"
        },
    )
}

/// Heading of the dialog.
pub fn format_destroy_dialog_heading() -> (r: &'static str)
    ensures
        r@ == "Delete vault?"@,
{
    "Delete vault?"
}

/// Caption of the destructive response.
pub fn format_destroy_dialog_destroy_label() -> (r: &'static str)
    ensures
        r@ == "Delete"@,
{
    "Delete"
}

/// Caption of the cancel response.
pub fn format_destroy_dialog_cancel_label() -> (r: &'static str)
    ensures
        r@ == "Cancel"@,
{
    "Cancel"
}

/// Title of the confirmation row.
pub fn format_destroy_dialog_confirmation_title() -> (r: &'static str)
    ensures
        r@ == "Type 'yes' to confirm"@,
{
    "Type 'yes' to confirm"
}

/// Identifier of the destructive response.
pub fn format_destroy_dialog_destructive_response_id() -> (r: &'static str)
    ensures
        r@ == "destroy"@,
{
    "destroy"
}

/// Identifier of the cancel response.
pub fn format_destroy_dialog_cancel_response_id() -> (r: &'static str)
    ensures
        r@ == "cancel"@,
{
    "cancel"
}

/// Text of the toast where there was no vault left to delete.
pub fn format_destroy_dialog_vault_gone_toast() -> (r: &'static str)
    ensures
        r@ == "Vault already gone."@,
{
    "Vault already gone."
}

/// Text of the toast after a deletion.
pub fn format_destroy_dialog_success_toast(backup_deleted: bool) -> (r: &'static str)
    ensures
        r@ == (if backup_deleted {
            "Vault deleted."@
        } else {
            "Vault deleted (backup remained on disk)."@
        }),
{
    if backup_deleted {
        "Vault deleted."
    } else {
        "Vault deleted (backup remained on disk)."
    }
}

/// What the dialog is opened with.
#[derive(Clone, Debug, PartialEq, Eq)]
pub struct DestroyDialogInit {
    /// Path of the vault.
    pub path: FilePath,
    /// Whether there is a backup.
    pub backup_present: bool,
}

/// State of the dialog in mathematical terms.
pub struct DestroyView {
    /// Bytes of the vault's path.
    pub path: Seq<u8>,
    /// Whether there is a backup.
    pub backup_present: bool,
    /// Text of the confirmation row.
    pub confirmation: Seq<char>,
    /// Whether a worker runs.
    pub busy: bool,
    /// What the last failed deletion means.
    pub outcome: Option<DestroyErrorOutcome>,
}

impl DestroyView {
    /// Whether the word `yes` is typed, with nothing but white space around.
    pub open spec fn accepted(self) -> bool {
        trimmed(self.confirmation) == "yes"@
    }

    /// Whether the destructive response is on.
    pub open spec fn armed(self) -> bool {
        !self.busy && self.accepted()
    }

    /// Without confirmation, worker and result.
    pub open spec fn cleared(self) -> Self {
        DestroyView { confirmation: Seq::empty(), busy: false, outcome: None, ..self }
    }
}

/// State of the dialog.
#[derive(Clone, Debug)]
pub struct DestroyDialogState {
    init: DestroyDialogInit,
    confirmation: String,
    busy: bool,
    worker_outcome: Option<DestroyErrorOutcome>,
}

impl View for DestroyDialogState {
    type V = DestroyView;

    closed spec fn view(&self) -> DestroyView {
        DestroyView {
            path: self.init.path.bytes@,
            backup_present: self.init.backup_present,
            confirmation: self.confirmation@,
            busy: self.busy,
            outcome: self.worker_outcome,
        }
    }
}

impl DestroyDialogState {
    /// A dialog that was just opened.
    pub fn new(init: &DestroyDialogInit) -> (r: Self)
        ensures
            r@ == (DestroyView {
                path: init.path.bytes@,
                backup_present: init.backup_present,
                confirmation: Seq::empty(),
                busy: false,
                outcome: None,
            }),
    {
        DestroyDialogState {
            init: DestroyDialogInit {
                path: init.path.clone(),
                backup_present: init.backup_present,
            },
            confirmation: String::new(),
            busy: false,
            worker_outcome: None,
        }
    }

    /// Path of the vault.
    pub fn path(&self) -> (r: &FilePath)
        ensures
            r.bytes@ == self@.path,
    {
        &self.init.path
    }

    /// Whether there is a backup.
    pub fn backup_present(&self) -> (r: bool)
        ensures
            r == self@.backup_present,
    {
        self.init.backup_present
    }

    /// Text of the confirmation row.
    pub fn confirmation(&self) -> (r: &str)
        ensures
            r@ == self@.confirmation,
    {
        self.confirmation.as_str()
    }

    /// Whether a worker runs.
    pub fn is_busy(&self) -> (r: bool)
        ensures
            r == self@.busy,
    {
        self.busy
    }

    /// Whether the word `yes` is typed.
    pub fn confirmation_accepted(&self) -> (r: bool)
        ensures
            r == self@.accepted(),
    {
        same_text(trim(self.confirmation.as_str()), "yes")
    }

    /// Error of the last attempt.
    pub fn inline_error(&self) -> (r: Option<&InlineError>)
        ensures
            match self@.outcome {
                Some(DestroyErrorOutcome::InlineError(err)) => r is Some && *r->0 == err,
                None => r is None,
            },
    {
        match &self.worker_outcome {
            Some(DestroyErrorOutcome::InlineError(err)) => Some(err),
            None => None,
        }
    }
}

/// What happens in the dialog.
#[derive(Clone, Debug)]
pub enum DestroyDialogMsg {
    /// The confirmation was edited.
    ConfirmationChanged(String),
    /// The destructive response was chosen.
    Confirm,
    /// The cancel response was chosen.
    Cancel,
    /// A worker started or ended.
    SetBusy(bool),
    /// The deletion failed.
    WorkerFailed(DestroyErrorOutcome),
}

/// What the dialog asks for.
#[derive(Clone, Debug, PartialEq, Eq)]
pub enum DestroyDialogOutput {
    /// Drop the dialog.
    Cancel,
    /// Delete the vault.
    SubmitConfirm {
        /// Path of the vault.
        path: FilePath,
    },
}

/// What the dialog asks for, in mathematical terms.
pub enum DestroyRequest {
    /// Drop the dialog.
    Cancel,
    /// Delete the vault at the path of these bytes.
    Destroy(Seq<u8>),
}

/// What the dialog asks for, in mathematical terms.
pub open spec fn request_of(output: Option<DestroyDialogOutput>) -> Option<DestroyRequest> {
    match output {
        Some(DestroyDialogOutput::Cancel) => Some(DestroyRequest::Cancel),
        Some(DestroyDialogOutput::SubmitConfirm { path }) => Some(
            DestroyRequest::Destroy(path.bytes@),
        ),
        None => None,
    }
}

/// The dialog after a message, and what it asks for.
pub open spec fn destroy_step(s: DestroyView, msg: DestroyDialogMsg) -> (
    DestroyView,
    Option<DestroyRequest>,
) {
    match msg {
        DestroyDialogMsg::ConfirmationChanged(text) => (
            DestroyView { confirmation: text@, ..s },
            None,
        ),
        DestroyDialogMsg::Confirm => (
            DestroyView { outcome: None, ..s },
            Some(DestroyRequest::Destroy(s.path)),
        ),
        DestroyDialogMsg::Cancel => (s, Some(DestroyRequest::Cancel)),
        DestroyDialogMsg::SetBusy(busy) => (DestroyView { busy, ..s }, None),
        DestroyDialogMsg::WorkerFailed(outcome) => (
            DestroyView { outcome: Some(outcome), ..s },
            None,
        ),
    }
}

/// Applies a message to the dialog and returns what it asks for.
pub fn apply_msg(state: &mut DestroyDialogState, msg: DestroyDialogMsg) -> (r: Option<
    DestroyDialogOutput,
>)
    ensures
        (final(state)@, request_of(r)) == destroy_step(old(state)@, msg),
{
    match msg {
        DestroyDialogMsg::ConfirmationChanged(text) => {
            state.confirmation = text;
            None
        },
        DestroyDialogMsg::Confirm => {
            state.worker_outcome = None;
            Some(DestroyDialogOutput::SubmitConfirm { path: state.init.path.clone() })
        },
        DestroyDialogMsg::Cancel => Some(DestroyDialogOutput::Cancel),
        DestroyDialogMsg::SetBusy(busy) => {
            state.busy = busy;
            None
        },
        DestroyDialogMsg::WorkerFailed(outcome) => {
            state.worker_outcome = Some(outcome);
            None
        },
    }
}

/// Wipes the confirmation and drops the last result when the vault locks or
/// the dialog closes.
pub fn clear_for_lock(state: &mut DestroyDialogState)
    ensures
        final(state)@ == old(state)@.cleared(),
{
    wipe_string(&mut state.confirmation);
    state.confirmation = String::new();
    state.worker_outcome = None;
    state.busy = false;
}

/// Text of the warning. `format_warning` is the engine's wording for a path
/// and its backup.
pub fn format_destroy_dialog_body<F: FnOnce(&FilePath, bool) -> String>(
    state: &DestroyDialogState,
    format_warning: F,
) -> (r: String)
    requires
        forall|path: FilePath|
            path.bytes@ == state@.path ==> #[trigger] call_requires(
                format_warning,
                (&path, state@.backup_present),
            ),
    ensures
        exists|path: FilePath|
            path.bytes@ == state@.path && #[trigger] call_ensures(
                format_warning,
                (&path, state@.backup_present),
                r,
            ),
{
    format_warning(state.path(), state.backup_present())
}

/// Whether the destructive response is on.
pub fn format_destroy_dialog_destructive_response_enabled(state: &DestroyDialogState) -> (r: bool)
    ensures
        r == state@.armed(),
{
    !state.is_busy() && state.confirmation_accepted()
}

/// Text of the error row; empty where there is no error.
pub fn format_destroy_dialog_inline_error_text(state: &DestroyDialogState) -> (r: &str)
    ensures
        r@ == (match state@.outcome {
            Some(DestroyErrorOutcome::InlineError(err)) => err.rendered@,
            None => ""@,
        }),
{
    match state.inline_error() {
        Some(err) => err.rendered.as_str(),
        None => "",
    }
}

/// Whether the error row is shown.
pub fn format_destroy_dialog_inline_error_visible(state: &DestroyDialogState) -> (r: bool)
    ensures
        r == state@.outcome is Some,
{
    state.inline_error().is_some()
}

/// No message turns the dialog to another vault, and what is deleted is the
/// vault that the dialog was opened for, on a confirmation alone.
pub proof fn only_confirmation_destroys(s: DestroyView, msg: DestroyDialogMsg)
    ensures
        ({
            let (next, request) = destroy_step(s, msg);
            &&& next.path == s.path
            &&& next.backup_present == s.backup_present
            &&& request matches Some(DestroyRequest::Destroy(path)) ==> msg is Confirm && path
                == s.path
        }),
{
}

/// A dialog that was just opened, one whose worker runs, and one that was
/// cleared have the destructive response off.
pub proof fn response_needs_confirmation(s: DestroyView, busy: DestroyView)
    requires
        s.confirmation.len() == 0,
        busy.busy,
    ensures
        !s.armed(),
        !busy.armed(),
        !s.cleared().armed(),
{
    reveal_strlit("yes");
    assert("yes"@.len() == 3);
    assert(trimmed(s.confirmation).len() == 0);
    assert(trimmed(s.cleared().confirmation).len() == 0);
}

/// White space around the word makes no difference.
pub proof fn padding_is_accepted(s: DestroyView, before: Seq<char>, after: Seq<char>)
    requires
        forall|i: int| 0 <= i < before.len() ==> is_white_space(#[trigger] before[i]),
        forall|i: int| 0 <= i < after.len() ==> is_white_space(#[trigger] after[i]),
        s.confirmation == before + "yes"@ + after,
    ensures
        s.accepted(),
{
    reveal_strlit("yes");
    padding_is_trimmed(before, "yes"@, after);
}

/// A failed attempt can be repeated without typing the word again.
pub proof fn confirmation_survives_failure(s: DestroyView, outcome: DestroyErrorOutcome)
    requires
        s.armed(),
    ensures
        ({
            let confirmed = destroy_step(s, DestroyDialogMsg::Confirm).0;
            let started = destroy_step(confirmed, DestroyDialogMsg::SetBusy(true)).0;
            let ended = destroy_step(started, DestroyDialogMsg::SetBusy(false)).0;
            let failed = destroy_step(ended, DestroyDialogMsg::WorkerFailed(outcome)).0;
            &&& !started.armed()
            &&& failed.armed()
            &&& failed.outcome == Some(outcome)
        }),
{
}

/// The destructive response is on exactly where no worker runs and the word `yes`
/// is typed, in lower case, with nothing but white space around it.
pub proof fn only_the_word_arms(s: DestroyView) -> (r: (Seq<char>, Seq<char>))
    requires
        s.armed(),
    ensures
        !s.busy,
        s.confirmation == r.0 + seq!['y', 'e', 's'] + r.1,
        forall|i: int| 0 <= i < r.0.len() ==> is_white_space(#[trigger] r.0[i]),
        forall|i: int| 0 <= i < r.1.len() ==> is_white_space(#[trigger] r.1[i]),
{
    reveal_strlit("yes");
    assert("yes"@ =~= seq!['y', 'e', 's']);
    only_white_space_is_trimmed(s.confirmation)
}

/// The word, with nothing but white space around it, arms an idle dialog.
pub proof fn the_word_arms(s: DestroyView, before: Seq<char>, after: Seq<char>)
    requires
        forall|i: int| 0 <= i < before.len() ==> is_white_space(#[trigger] before[i]),
        forall|i: int| 0 <= i < after.len() ==> is_white_space(#[trigger] after[i]),
        s.confirmation == before + seq!['y', 'e', 's'] + after,
    ensures
        s.accepted(),
        !s.busy ==> s.armed(),
{
    reveal_strlit("yes");
    assert("yes"@ =~= seq!['y', 'e', 's']);
    padding_is_accepted(s, before, after);
}

/// A confirmation asks for the deletion of the vault that the dialog was opened
/// for. The other messages change the part they speak of and nothing else.
pub proof fn confirmation_deletes_the_vault(
    s: DestroyView,
    text: String,
    busy: bool,
    outcome: DestroyErrorOutcome,
)
    ensures
        destroy_step(s, DestroyDialogMsg::Confirm) == (
            DestroyView { outcome: None, ..s },
            Some(DestroyRequest::Destroy(s.path)),
        ),
        destroy_step(s, DestroyDialogMsg::Cancel) == (s, Some(DestroyRequest::Cancel)),
        destroy_step(s, DestroyDialogMsg::ConfirmationChanged(text)) == (
            DestroyView { confirmation: text@, ..s },
            None::<DestroyRequest>,
        ),
        destroy_step(s, DestroyDialogMsg::SetBusy(busy)) == (
            DestroyView { busy, ..s },
            None::<DestroyRequest>,
        ),
        destroy_step(s, DestroyDialogMsg::WorkerFailed(outcome)) == (
            DestroyView { outcome: Some(outcome), ..s },
            None::<DestroyRequest>,
        ),
        ({
            let cleared = s.cleared();
            &&& cleared.confirmation.len() == 0 && !cleared.busy && cleared.outcome is None
            &&& cleared.path == s.path && cleared.backup_present == s.backup_present
        }),
{
}

/// A deletion hands its report on; a vault that is gone already is no failure; any
/// other error is shown in the engine's words.
pub proof fn result_of_deletion_is_shown(result: Result<DestroyReport, PaladinError>)
    ensures
        match result {
            Ok(report) => destroy_effect(result) == DestroyWorkerEffect::Success(report),
            Err(err) => if err.kind == ErrorKind::VaultMissing {
                destroy_effect(result) == DestroyWorkerEffect::VaultMissing
            } else {
                destroy_effect(result) matches DestroyWorkerEffect::Failure(
                    DestroyErrorOutcome::InlineError(shown),
                ) && shown.kind == err.kind && shown.rendered == err.rendered
            },
        },
{
}

/// What is handed on is what the dialog asks for.
pub proof fn request_is_faithful(path: FilePath)
    ensures
        request_of(Some(DestroyDialogOutput::SubmitConfirm { path })) == Some(
            DestroyRequest::Destroy(path.bytes@),
        ),
        request_of(Some(DestroyDialogOutput::Cancel)) == Some(DestroyRequest::Cancel),
        request_of(None) is None,
{
}

} // verus!

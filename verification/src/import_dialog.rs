//! The import dialog: source, format and conflict policy, the passphrase of
//! an encrypted bundle, and the counts after the merge.

pub use crate::inline::InlineError;
pub use crate::inline::InlineWarning;

use crate::inline::inline_error;
use crate::inline::inline_warning;
use crate::paths::denotation;
use crate::paths::file_name_follows_last_slash;
use crate::paths::file_name_of;
use crate::paths::lossy_text;
use crate::paths::names_are_components;
use crate::paths::FilePath;
use crate::secret_fields::SecretEntry;
use crate::text::decimal;
use crate::text::decimal_text;
use crate::text::joined;
use crate::vault::ErrorKind;
use crate::vault::ImportConflict;
use crate::vault::ImportFormat;
use crate::vault::ImportOptions;
use crate::vault::ImportReport;
use crate::vault::PaladinError;
use crate::vault::PaladinImportPrecheck;
use crate::wiping::Passphrase;
use vstd::prelude::*;

verus! {

/// Format choice of the selector.
#[derive(Clone, Copy, Debug, PartialEq, Eq, Structural)]
pub enum FormatChoice {
    /// Let the engine find out.
    AutoDetect,
    /// List of `otpauth://` URIs.
    Otpauth,
    /// Plaintext Aegis export.
    Aegis,
    /// Encrypted Paladin bundle.
    Paladin,
    /// QR image.
    Qr,
}

impl Default for FormatChoice {
    fn default() -> (r: Self)
        ensures
            r == FormatChoice::AutoDetect,
    {
        FormatChoice::AutoDetect
    }
}

/// The format that a choice forces, if it forces one.
pub open spec fn forced(choice: FormatChoice) -> Option<ImportFormat> {
    match choice {
        FormatChoice::AutoDetect => None,
        FormatChoice::Otpauth => Some(ImportFormat::Otpauth),
        FormatChoice::Aegis => Some(ImportFormat::Aegis),
        FormatChoice::Paladin => Some(ImportFormat::Paladin),
        FormatChoice::Qr => Some(ImportFormat::QrImage),
    }
}

/// Position of a format choice in the selector.
pub open spec fn format_index(choice: FormatChoice) -> u32 {
    match choice {
        FormatChoice::AutoDetect => 0,
        FormatChoice::Otpauth => 1,
        FormatChoice::Aegis => 2,
        FormatChoice::Paladin => 3,
        FormatChoice::Qr => 4,
    }
}

/// Format choice at a position of the selector.
pub open spec fn format_at(selected: u32) -> Option<FormatChoice> {
    if selected == 0 {
        Some(FormatChoice::AutoDetect)
    } else if selected == 1 {
        Some(FormatChoice::Otpauth)
    } else if selected == 2 {
        Some(FormatChoice::Aegis)
    } else if selected == 3 {
        Some(FormatChoice::Paladin)
    } else if selected == 4 {
        Some(FormatChoice::Qr)
    } else {
        None
    }
}

impl FormatChoice {
    /// The format that the choice forces, if it forces one.
    pub fn forced_format(self) -> (r: Option<ImportFormat>)
        ensures
            r == forced(self),
    {
        match self {
            FormatChoice::AutoDetect => None,
            FormatChoice::Otpauth => Some(ImportFormat::Otpauth),
            FormatChoice::Aegis => Some(ImportFormat::Aegis),
            FormatChoice::Paladin => Some(ImportFormat::Paladin),
            FormatChoice::Qr => Some(ImportFormat::QrImage),
        }
    }

    /// Position in the selector.
    pub fn index(self) -> (r: u32)
        ensures
            r == format_index(self),
    {
        match self {
            FormatChoice::AutoDetect => 0,
            FormatChoice::Otpauth => 1,
            FormatChoice::Aegis => 2,
            FormatChoice::Paladin => 3,
            FormatChoice::Qr => 4,
        }
    }
}

/// Format choice at a position of the selector.
pub fn format_choice_from_index(selected: u32) -> (r: Option<FormatChoice>)
    ensures
        r == format_at(selected),
{
    match selected {
        0 => Some(FormatChoice::AutoDetect),
        1 => Some(FormatChoice::Otpauth),
        2 => Some(FormatChoice::Aegis),
        3 => Some(FormatChoice::Paladin),
        4 => Some(FormatChoice::Qr),
        _ => None,
    }
}

/// Conflict choice of the selector.
#[derive(Clone, Copy, Debug, PartialEq, Eq, Structural)]
pub enum ConflictChoice {
    /// Keep the existing account.
    Skip,
    /// Replace the existing account.
    Replace,
    /// Add beside the existing account.
    Append,
}

impl Default for ConflictChoice {
    fn default() -> (r: Self)
        ensures
            r == ConflictChoice::Skip,
    {
        ConflictChoice::Skip
    }
}

/// The policy of a conflict choice.
pub open spec fn policy(choice: ConflictChoice) -> ImportConflict {
    match choice {
        ConflictChoice::Skip => ImportConflict::Skip,
        ConflictChoice::Replace => ImportConflict::Replace,
        ConflictChoice::Append => ImportConflict::Append,
    }
}

/// Position of a conflict choice in the selector.
pub open spec fn conflict_index(choice: ConflictChoice) -> u32 {
    match choice {
        ConflictChoice::Skip => 0,
        ConflictChoice::Replace => 1,
        ConflictChoice::Append => 2,
    }
}

/// Conflict choice at a position of the selector.
pub open spec fn conflict_at(selected: u32) -> Option<ConflictChoice> {
    if selected == 0 {
        Some(ConflictChoice::Skip)
    } else if selected == 1 {
        Some(ConflictChoice::Replace)
    } else if selected == 2 {
        Some(ConflictChoice::Append)
    } else {
        None
    }
}

impl ConflictChoice {
    /// The policy of the choice.
    pub fn into_policy(self) -> (r: ImportConflict)
        ensures
            r == policy(self),
    {
        match self {
            ConflictChoice::Skip => ImportConflict::Skip,
            ConflictChoice::Replace => ImportConflict::Replace,
            ConflictChoice::Append => ImportConflict::Append,
        }
    }

    /// Position in the selector.
    pub fn index(self) -> (r: u32)
        ensures
            r == conflict_index(self),
    {
        match self {
            ConflictChoice::Skip => 0,
            ConflictChoice::Replace => 1,
            ConflictChoice::Append => 2,
        }
    }
}

/// Conflict choice at a position of the selector.
pub fn conflict_choice_from_index(selected: u32) -> (r: Option<ConflictChoice>)
    ensures
        r == conflict_at(selected),
{
    match selected {
        0 => Some(ConflictChoice::Skip),
        1 => Some(ConflictChoice::Replace),
        2 => Some(ConflictChoice::Append),
        _ => None,
    }
}

/// A choice is found again at its position, and a position that holds a
/// choice is that choice's.
pub proof fn selector_positions_round_trip(
    format: FormatChoice,
    conflict: ConflictChoice,
    selected: u32,
)
    ensures
        format_at(format_index(format)) == Some(format),
        format_at(selected) is Some ==> format_index(format_at(selected)->0) == selected,
        conflict_at(conflict_index(conflict)) == Some(conflict),
        conflict_at(selected) is Some ==> conflict_index(conflict_at(selected)->0) == selected,
{
}

/// Builds the import options: the forced format and the passphrase as given.
pub fn build_import_options(format: FormatChoice, paladin_passphrase: Option<Passphrase>) -> (r:
    ImportOptions)
    ensures
        r.format == forced(format),
        r.paladin_passphrase == paladin_passphrase,
{
    ImportOptions { format: format.forced_format(), paladin_passphrase }
}

/// What a look at the source leads to.
#[derive(Debug)]
pub enum PrecheckOutcome {
    /// No passphrase is needed.
    Proceed,
    /// The passphrase of the bundle is needed.
    PromptForPassphrase,
    /// The source is refused.
    InlineError(InlineError),
}

/// What a look at the source leads to.
pub open spec fn prechecked(probe: PaladinImportPrecheck) -> PrecheckOutcome {
    match probe {
        PaladinImportPrecheck::NoPrompt => PrecheckOutcome::Proceed,
        PaladinImportPrecheck::PromptForPassphrase => PrecheckOutcome::PromptForPassphrase,
        PaladinImportPrecheck::Reject(err) => PrecheckOutcome::InlineError(inline_error(err)),
    }
}

/// Decides what a look at the source leads to.
pub fn classify_precheck(probe: PaladinImportPrecheck) -> (r: PrecheckOutcome)
    ensures
        r == prechecked(probe),
{
    match probe {
        PaladinImportPrecheck::NoPrompt => PrecheckOutcome::Proceed,
        PaladinImportPrecheck::PromptForPassphrase => PrecheckOutcome::PromptForPassphrase,
        PaladinImportPrecheck::Reject(err) => {
            PrecheckOutcome::InlineError(InlineError::from_error(&err))
        },
    }
}

/// Whether the passphrase has to be typed anew.
pub fn passphrase_needs_reset(
    prev_path: &FilePath,
    prev_forced: Option<ImportFormat>,
    new_path: &FilePath,
    new_forced: Option<ImportFormat>,
) -> (r: bool)
    ensures
        r == (prev_path@ != new_path@ || prev_forced != new_forced),
{
    !prev_path.same_as(new_path) || !same_forced(prev_forced, new_forced)
}

fn same_forced(a: Option<ImportFormat>, b: Option<ImportFormat>) -> (r: bool)
    ensures
        r == (a == b),
{
    match (a, b) {
        (Some(x), Some(y)) => x == y,
        (None, None) => true,
        _ => false,
    }
}

/// Counts of a merge.
#[derive(Clone, Copy, Debug, PartialEq, Eq, Structural)]
pub struct MergeSummary {
    /// Accounts added.
    pub imported: usize,
    /// Accounts skipped.
    pub skipped: usize,
    /// Accounts replaced.
    pub replaced: usize,
    /// Accounts appended.
    pub appended: usize,
    /// Warnings.
    pub warnings: usize,
}

/// The counts of a report.
pub open spec fn report_summary(report: ImportReport) -> MergeSummary {
    MergeSummary {
        imported: report.imported,
        skipped: report.skipped,
        replaced: report.replaced,
        appended: report.appended,
        warnings: report.warnings@.len() as usize,
    }
}

impl MergeSummary {
    /// The counts of a report.
    pub fn from_report(report: &ImportReport) -> (r: Self)
        ensures
            r == report_summary(*report),
            r.warnings == report.warnings@.len(),
    {
        MergeSummary {
            imported: report.imported,
            skipped: report.skipped,
            replaced: report.replaced,
            appended: report.appended,
            warnings: report.warnings.len(),
        }
    }
}

/// Result of a merge.
#[derive(Clone, Debug)]
pub enum MergeOutcome {
    /// The merge is saved.
    Success(MergeSummary),
    /// The merge was rolled back.
    NotCommitted(InlineError),
    /// The merge is saved, but its durability is not certain.
    DurabilityWarning(InlineWarning),
    /// The merge did not happen.
    Inline(InlineError),
}

/// What the result of a merge means for the dialog.
pub open spec fn merge_outcome(result: Result<ImportReport, PaladinError>) -> MergeOutcome {
    match result {
        Ok(report) => MergeOutcome::Success(report_summary(report)),
        Err(err) => match err.kind {
            ErrorKind::SaveNotCommitted => MergeOutcome::NotCommitted(inline_error(err)),
            ErrorKind::SaveDurabilityUnconfirmed => MergeOutcome::DurabilityWarning(
                inline_warning(err),
            ),
            _ => MergeOutcome::Inline(inline_error(err)),
        },
    }
}

/// Decides what the result of a merge means for the dialog.
pub fn classify_merge_result(result: Result<ImportReport, PaladinError>) -> (r: MergeOutcome)
    ensures
        r == merge_outcome(result),
{
    match result {
        Ok(report) => MergeOutcome::Success(MergeSummary::from_report(&report)),
        Err(err) => match err.kind() {
            ErrorKind::SaveNotCommitted => MergeOutcome::NotCommitted(InlineError::from_error(&err)),
            ErrorKind::SaveDurabilityUnconfirmed => {
                MergeOutcome::DurabilityWarning(InlineWarning::from_error(&err))
            },
            _ => MergeOutcome::Inline(InlineError::from_error(&err)),
        },
    }
}

/// What the dialog is opened with.
#[derive(Clone, Debug)]
pub struct ImportDialogInit {
    /// The vault that is merged into.
    pub vault_path: FilePath,
}

/// What happens in the dialog.
#[derive(Debug)]
pub enum ImportDialogMsg {
    /// The cancel button was pressed.
    Cancel,
    /// The dialog was dismissed.
    Close,
    /// A source was chosen.
    SourcePathPicked {
        /// The source.
        path: FilePath,
        /// A look at the source.
        precheck: PaladinImportPrecheck,
    },
    /// The format was changed.
    FormatChanged {
        /// The format.
        format: FormatChoice,
        /// A look at the source under the new format.
        precheck: PaladinImportPrecheck,
    },
    /// The conflict policy was changed.
    ConflictChanged(ConflictChoice),
    /// The passphrase was edited.
    PassphraseChanged(String),
    /// The import button was pressed.
    SubmitClicked,
    /// A worker started or ended.
    SetBusy(bool),
    /// The worker returned.
    WorkerCompleted(MergeOutcome),
    /// The counts were dismissed.
    DismissCounts,
}

/// What the dialog asks for.
#[derive(Debug)]
pub enum ImportDialogOutput {
    /// Drop the dialog: it was cancelled.
    Cancel,
    /// Drop the dialog: it was dismissed.
    Close,
    /// Run the import.
    Submit(ImportSubmitPayload),
}

/// Title of the dialog.
pub fn format_import_dialog_title() -> (r: &'static str)
    ensures
        r@ == "Import accounts"@,
{
    "Import accounts"
}

/// Subtitle of the dialog.
pub fn format_import_dialog_subtitle() -> (r: &'static str)
    ensures
        r@ == "Merge accounts from an exported file into the open vault."@,
{
    "Merge accounts from an exported file into the open vault."
}

/// Title of the source group.
pub fn format_import_dialog_source_group_title() -> (r: &'static str)
    ensures
        r@ == "Source"@,
{
    "Source"
}

/// Title of the source row.
pub fn format_import_dialog_source_row_title() -> (r: &'static str)
    ensures
        r@ == "File"@,
{
    "File"
}

/// What the source row shows before a file is chosen.
pub fn format_import_dialog_source_row_placeholder() -> (r: &'static str)
    ensures
        r@ == "No file selected"@,
{
    "No file selected"
}

/// Caption of the button that chooses the file.
pub fn format_import_dialog_choose_source_label() -> (r: &'static str)
    ensures
        r@ == "Choose file…"@,
{
    "Choose file…"
}

/// Title of the options group.
pub fn format_import_dialog_options_group_title() -> (r: &'static str)
    ensures
        r@ == "Options"@,
{
    "Options"
}

/// Title of the format row.
pub fn format_import_dialog_format_row_title() -> (r: &'static str)
    ensures
        r@ == "Format"@,
{
    "Format"
}

/// Title of the conflict row.
pub fn format_import_dialog_conflict_row_title() -> (r: &'static str)
    ensures
        r@ == "On conflict"@,
{
    "On conflict"
}

/// Title of the passphrase row.
pub fn format_import_dialog_passphrase_row_title() -> (r: &'static str)
    ensures
        r@ == "Bundle passphrase"@,
{
    "Bundle passphrase"
}

/// Title of the counts panel.
pub fn format_import_dialog_counts_group_title() -> (r: &'static str)
    ensures
        r@ == "Import complete"@,
{
    "Import complete"
}

/// Caption of the cancel button.
pub fn format_import_dialog_cancel_label() -> (r: &'static str)
    ensures
        r@ == "Cancel"@,
{
    "Cancel"
}

/// Caption of the import button.
pub fn format_import_dialog_import_label() -> (r: &'static str)
    ensures
        r@ == "Import"@,
{
    "Import"
}

/// Caption of the button that dismisses the counts.
pub fn format_import_dialog_dismiss_label() -> (r: &'static str)
    ensures
        r@ == "Dismiss"@,
{
    "Dismiss"
}

/// Captions of the format selector, in the order of the positions.
pub fn format_import_dialog_format_labels() -> (r: [&'static str; 5])
    ensures
        r[0]@ == "Auto-detect"@,
        r[1]@ == "otpauth:// JSON list"@,
        r[2]@ == "Aegis JSON"@,
        r[3]@ == "Paladin bundle"@,
        r[4]@ == "QR code"@,
{
    ["Auto-detect", "otpauth:// JSON list", "Aegis JSON", "Paladin bundle", "QR code"]
}

/// Captions of the conflict selector, in the order of the positions.
pub fn format_import_dialog_conflict_labels() -> (r: [&'static str; 3])
    ensures
        r[0]@ == "Skip"@,
        r[1]@ == "Replace"@,
        r[2]@ == "Append"@,
{
    ["Skip", "Replace", "Append"]
}

/// What the worker is to import.
#[derive(Debug)]
pub struct ImportSubmitPayload {
    /// Where it comes from.
    pub source_path: FilePath,
    /// Format and passphrase.
    pub options: ImportOptions,
    /// Conflict policy.
    pub conflict: ImportConflict,
}

/// What the worker is handed. `V` is the open vault and `S` its store.
#[derive(Debug)]
pub struct ImportWorkerInput<V, S> {
    /// The vault.
    pub vault: V,
    /// Its store.
    pub store: S,
    /// Where the accounts come from.
    pub source_path: FilePath,
    /// Format and passphrase.
    pub options: ImportOptions,
    /// Conflict policy.
    pub conflict: ImportConflict,
    /// Time of the import, in nanoseconds since the epoch.
    pub import_time: u128,
}

/// What the worker hands back: vault and store always return.
#[derive(Debug)]
pub struct ImportWorkerCompletion<V, S> {
    /// What the import means for the dialog.
    pub outcome: MergeOutcome,
    /// The vault as the merge left it.
    pub vault: V,
    /// Its store.
    pub store: S,
}

/// Imports accounts into a vault. `merge` reads the source, merges it and
/// saves; it hands the vault back, whether or not it succeeds.
pub fn run_import_worker<
    V,
    S,
    M: FnOnce(V, &S, &FilePath, ImportOptions, ImportConflict, u128) -> (
        V,
        Result<ImportReport, PaladinError>,
    ),
>(input: ImportWorkerInput<V, S>, merge: M) -> (r: ImportWorkerCompletion<V, S>)
    requires
        call_requires(
            merge,
            (
                input.vault,
                &input.store,
                &input.source_path,
                input.options,
                input.conflict,
                input.import_time,
            ),
        ),
    ensures
        r.store == input.store,
        exists|vault: V, merged: Result<ImportReport, PaladinError>|
            {
                &&& #[trigger] call_ensures(
                    merge,
                    (
                        input.vault,
                        &input.store,
                        &input.source_path,
                        input.options,
                        input.conflict,
                        input.import_time,
                    ),
                    (vault, merged),
                )
                &&& r.vault == vault
                &&& r.outcome == merge_outcome(merged)
            },
{
    let (vault, merged) = merge(
        input.vault,
        &input.store,
        &input.source_path,
        input.options,
        input.conflict,
        input.import_time,
    );
    ImportWorkerCompletion { outcome: classify_merge_result(merged), vault, store: input.store }
}

/// What the worker is to import, in mathematical terms.
pub struct ImportJob {
    /// Bytes of the source path.
    pub source: Seq<u8>,
    /// Forced format.
    pub format: Option<ImportFormat>,
    /// Passphrase of the bundle.
    pub passphrase: Option<Seq<char>>,
    /// Conflict policy.
    pub conflict: ImportConflict,
}

impl View for ImportSubmitPayload {
    type V = ImportJob;

    open spec fn view(&self) -> ImportJob {
        ImportJob {
            source: self.source_path.bytes@,
            format: self.options.format,
            passphrase: match self.options.paladin_passphrase {
                Some(passphrase) => Some(passphrase@),
                None => None,
            },
            conflict: self.conflict,
        }
    }
}

/// What the dialog asks for, in mathematical terms.
pub enum ImportRequest {
    /// Drop the dialog: it was cancelled.
    Cancel,
    /// Drop the dialog: it was dismissed.
    Close,
    /// Run the import.
    Submit(ImportJob),
}

/// What the dialog asks for, in mathematical terms.
pub open spec fn request_of(output: Option<ImportDialogOutput>) -> Option<ImportRequest> {
    match output {
        Some(ImportDialogOutput::Cancel) => Some(ImportRequest::Cancel),
        Some(ImportDialogOutput::Close) => Some(ImportRequest::Close),
        Some(ImportDialogOutput::Submit(payload)) => Some(ImportRequest::Submit(payload@)),
        None => None,
    }
}

/// What a press of the import button leads to.
#[derive(Debug)]
pub enum SubmitOutcome {
    /// No source is chosen.
    NeedsSourcePath,
    /// The source was not looked at yet.
    AwaitingPrecheck,
    /// The passphrase is missing.
    AwaitingPassphrase,
    /// The import starts.
    Proceed(ImportSubmitPayload),
    /// The source is refused.
    Rejected(InlineError),
}

/// What a press of the import button leads to, in mathematical terms.
pub enum Submission {
    /// No source is chosen.
    NeedsSourcePath,
    /// The source was not looked at yet.
    AwaitingPrecheck,
    /// The passphrase is missing.
    AwaitingPassphrase,
    /// The import starts.
    Proceed(ImportJob),
    /// The source is refused.
    Rejected(InlineError),
}

impl View for SubmitOutcome {
    type V = Submission;

    open spec fn view(&self) -> Submission {
        match self {
            SubmitOutcome::NeedsSourcePath => Submission::NeedsSourcePath,
            SubmitOutcome::AwaitingPrecheck => Submission::AwaitingPrecheck,
            SubmitOutcome::AwaitingPassphrase => Submission::AwaitingPassphrase,
            SubmitOutcome::Proceed(payload) => Submission::Proceed(payload@),
            SubmitOutcome::Rejected(err) => Submission::Rejected(*err),
        }
    }
}

/// State of the dialog in mathematical terms.
pub struct ImportView {
    /// Bytes of the source path.
    pub source: Option<Seq<u8>>,
    /// Format choice.
    pub format: FormatChoice,
    /// Conflict choice.
    pub conflict: ConflictChoice,
    /// What the last look at the source led to.
    pub precheck: Option<PrecheckOutcome>,
    /// Text of the passphrase entry.
    pub passphrase: Seq<char>,
    /// Error shown.
    pub error: Option<InlineError>,
    /// Warning shown.
    pub warning: Option<InlineWarning>,
    /// Counts shown.
    pub summary: Option<MergeSummary>,
    /// Whether a worker runs.
    pub busy: bool,
}

impl ImportView {
    /// An untouched dialog.
    pub open spec fn fresh() -> Self {
        ImportView {
            source: None,
            format: FormatChoice::AutoDetect,
            conflict: ConflictChoice::Skip,
            precheck: None,
            passphrase: Seq::empty(),
            error: None,
            warning: None,
            summary: None,
            busy: false,
        }
    }

    /// With a new look at the source; a refusal is shown.
    pub open spec fn looked_at(self, outcome: PrecheckOutcome) -> Self {
        ImportView {
            precheck: Some(outcome),
            error: match outcome {
                PrecheckOutcome::InlineError(err) => Some(err),
                _ => self.error,
            },
            ..self
        }
    }

    /// After the choice of a source. Another source starts clean: without
    /// passphrase and without error.
    pub open spec fn with_source(self, path: Seq<u8>, outcome: PrecheckOutcome) -> Self {
        let changed = match self.source {
            Some(prev) => denotation(prev) != denotation(path),
            None => true,
        };
        let started = if changed {
            ImportView { passphrase: Seq::empty(), error: None, ..self }
        } else {
            self
        };
        ImportView { source: Some(path), ..started }.looked_at(outcome)
    }

    /// After the choice of a format. Another format wipes the passphrase; an
    /// error that came from a look at the source goes with that look.
    pub open spec fn with_format(self, format: FormatChoice, outcome: PrecheckOutcome) -> Self {
        ImportView {
            format,
            passphrase: if forced(self.format) != forced(format) {
                Seq::empty()
            } else {
                self.passphrase
            },
            error: if self.precheck matches Some(PrecheckOutcome::InlineError(_)) {
                None
            } else {
                self.error
            },
            ..self
        }.looked_at(outcome)
    }

    /// After the return of a worker.
    pub open spec fn with_outcome(self, outcome: MergeOutcome) -> Self {
        match outcome {
            MergeOutcome::Success(summary) => ImportView {
                busy: false,
                summary: Some(summary),
                error: None,
                warning: None,
                ..self
            },
            MergeOutcome::DurabilityWarning(warning) => ImportView {
                busy: false,
                summary: None,
                error: None,
                warning: Some(warning),
                ..self
            },
            MergeOutcome::NotCommitted(err) => ImportView {
                busy: false,
                summary: None,
                error: Some(err),
                warning: None,
                ..self
            },
            MergeOutcome::Inline(err) => ImportView {
                busy: false,
                summary: None,
                error: Some(err),
                warning: None,
                ..self
            },
        }
    }

    /// The import that the dialog describes, with a passphrase or without.
    pub open spec fn job(self, passphrase: Option<Seq<char>>) -> ImportJob {
        ImportJob {
            source: self.source->0,
            format: forced(self.format),
            passphrase,
            conflict: policy(self.conflict),
        }
    }

    /// What a press of the import button leads to.
    pub open spec fn submission(self) -> Submission {
        if self.source is None {
            Submission::NeedsSourcePath
        } else {
            match self.precheck {
                None => Submission::AwaitingPrecheck,
                Some(PrecheckOutcome::InlineError(err)) => Submission::Rejected(err),
                Some(PrecheckOutcome::PromptForPassphrase) => if self.passphrase.len() == 0 {
                    Submission::AwaitingPassphrase
                } else {
                    Submission::Proceed(self.job(Some(self.passphrase)))
                },
                Some(PrecheckOutcome::Proceed) => Submission::Proceed(self.job(None)),
            }
        }
    }
}

/// The dialog after a message, and what it asks for.
pub open spec fn import_step(s: ImportView, msg: ImportDialogMsg) -> (
    ImportView,
    Option<ImportRequest>,
) {
    match msg {
        ImportDialogMsg::Cancel => (s, Some(ImportRequest::Cancel)),
        ImportDialogMsg::Close => (s, Some(ImportRequest::Close)),
        ImportDialogMsg::SourcePathPicked { path, precheck } => (
            s.with_source(path.bytes@, prechecked(precheck)),
            None,
        ),
        ImportDialogMsg::FormatChanged { format, precheck } => (
            s.with_format(format, prechecked(precheck)),
            None,
        ),
        ImportDialogMsg::ConflictChanged(conflict) => (ImportView { conflict, ..s }, None),
        ImportDialogMsg::PassphraseChanged(text) => (
            ImportView { passphrase: text@, error: None, ..s },
            None,
        ),
        ImportDialogMsg::SubmitClicked => match s.submission() {
            Submission::Proceed(job) => (
                ImportView { busy: true, error: None, warning: None, summary: None, ..s },
                Some(ImportRequest::Submit(job)),
            ),
            Submission::Rejected(err) => (ImportView { error: Some(err), ..s }, None),
            _ => (s, None),
        },
        ImportDialogMsg::SetBusy(busy) => (ImportView { busy, ..s }, None),
        ImportDialogMsg::WorkerCompleted(outcome) => (s.with_outcome(outcome), None),
        ImportDialogMsg::DismissCounts => (
            ImportView { summary: None, ..s },
            Some(ImportRequest::Close),
        ),
    }
}

/// State of the dialog.
pub struct ImportDialogState {
    source_path: Option<FilePath>,
    format: FormatChoice,
    conflict: ConflictChoice,
    precheck_outcome: Option<PrecheckOutcome>,
    passphrase: SecretEntry,
    inline_error: Option<InlineError>,
    inline_warning: Option<InlineWarning>,
    merge_summary: Option<MergeSummary>,
    busy: bool,
}

impl View for ImportDialogState {
    type V = ImportView;

    closed spec fn view(&self) -> ImportView {
        ImportView {
            source: match self.source_path {
                Some(path) => Some(path.bytes@),
                None => None,
            },
            format: self.format,
            conflict: self.conflict,
            precheck: self.precheck_outcome,
            passphrase: self.passphrase@,
            error: self.inline_error,
            warning: self.inline_warning,
            summary: self.merge_summary,
            busy: self.busy,
        }
    }
}

impl Default for ImportDialogState {
    fn default() -> (r: Self)
        ensures
            r@ == ImportView::fresh(),
    {
        ImportDialogState {
            source_path: None,
            format: FormatChoice::AutoDetect,
            conflict: ConflictChoice::Skip,
            precheck_outcome: None,
            passphrase: SecretEntry::new(),
            inline_error: None,
            inline_warning: None,
            merge_summary: None,
            busy: false,
        }
    }
}

impl ImportDialogState {
    /// An untouched dialog.
    pub fn new() -> (r: Self)
        ensures
            r@ == ImportView::fresh(),
    {
        ImportDialogState::default()
    }

    /// The source.
    pub fn source_path(&self) -> (r: Option<&FilePath>)
        ensures
            r is Some == self@.source is Some,
            r is Some ==> r->0.bytes@ == self@.source->0,
    {
        match &self.source_path {
            Some(path) => Some(path),
            None => None,
        }
    }

    /// The format choice.
    pub fn format(&self) -> (r: FormatChoice)
        ensures
            r == self@.format,
    {
        self.format
    }

    /// The conflict choice.
    pub fn conflict(&self) -> (r: ConflictChoice)
        ensures
            r == self@.conflict,
    {
        self.conflict
    }

    /// What the last look at the source led to.
    pub fn precheck_outcome(&self) -> (r: Option<&PrecheckOutcome>)
        ensures
            r is Some == self@.precheck is Some,
            r is Some ==> *r->0 == self@.precheck->0,
    {
        match &self.precheck_outcome {
            Some(outcome) => Some(outcome),
            None => None,
        }
    }

    /// Text of the passphrase entry.
    pub fn passphrase_text(&self) -> (r: &str)
        ensures
            r@ == self@.passphrase,
    {
        self.passphrase.text()
    }

    /// Whether the passphrase row is shown.
    pub fn passphrase_visible(&self) -> (r: bool)
        ensures
            r == (self@.precheck == Some(PrecheckOutcome::PromptForPassphrase)),
    {
        match &self.precheck_outcome {
            Some(PrecheckOutcome::PromptForPassphrase) => true,
            _ => false,
        }
    }

    /// Whether a worker runs.
    pub fn is_busy(&self) -> (r: bool)
        ensures
            r == self@.busy,
    {
        self.busy
    }

    /// Error shown.
    pub fn inline_error(&self) -> (r: Option<&InlineError>)
        ensures
            r is Some == self@.error is Some,
            r is Some ==> *r->0 == self@.error->0,
    {
        match &self.inline_error {
            Some(err) => Some(err),
            None => None,
        }
    }

    /// Warning shown.
    pub fn inline_warning(&self) -> (r: Option<&InlineWarning>)
        ensures
            r is Some == self@.warning is Some,
            r is Some ==> *r->0 == self@.warning->0,
    {
        match &self.inline_warning {
            Some(warning) => Some(warning),
            None => None,
        }
    }

    /// Counts shown.
    pub fn merge_summary(&self) -> (r: Option<&MergeSummary>)
        ensures
            r is Some == self@.summary is Some,
            r is Some ==> *r->0 == self@.summary->0,
    {
        match &self.merge_summary {
            Some(summary) => Some(summary),
            None => None,
        }
    }

    /// Sets the source with a look at it.
    pub fn set_source_path(&mut self, path: FilePath, precheck: PaladinImportPrecheck)
        ensures
            final(self)@ == old(self)@.with_source(path.bytes@, prechecked(precheck)),
    {
        let forced_format = self.format.forced_format();
        let needs_reset: bool = match &self.source_path {
            Some(prev) => passphrase_needs_reset(prev, forced_format, &path, forced_format),
            None => true,
        };
        if needs_reset {
            self.passphrase = SecretEntry::new();
            self.inline_error = None;
        }
        self.source_path = Some(path);
        self.look_at(classify_precheck(precheck));
    }

    /// Sets the format with a look at the source under it.
    pub fn set_format(&mut self, format: FormatChoice, precheck: PaladinImportPrecheck)
        ensures
            final(self)@ == old(self)@.with_format(format, prechecked(precheck)),
    {
        if !same_forced(self.format.forced_format(), format.forced_format()) {
            self.passphrase = SecretEntry::new();
        }
        if let Some(PrecheckOutcome::InlineError(_)) = &self.precheck_outcome {
            self.inline_error = None;
        }
        self.format = format;
        self.look_at(classify_precheck(precheck));
    }

    /// Notes what a look at the source led to, and shows a refusal.
    fn look_at(&mut self, outcome: PrecheckOutcome)
        ensures
            final(self)@ == old(self)@.looked_at(outcome),
    {
        if let PrecheckOutcome::InlineError(err) = &outcome {
            self.inline_error = Some(err.clone());
        }
        self.precheck_outcome = Some(outcome);
    }

    /// Sets the conflict choice.
    pub fn set_conflict(&mut self, conflict: ConflictChoice)
        ensures
            final(self)@ == (ImportView { conflict, ..old(self)@ }),
    {
        self.conflict = conflict;
    }

    /// Replaces the passphrase and drops the error.
    pub fn set_passphrase(&mut self, text: &str)
        ensures
            final(self)@ == (ImportView { passphrase: text@, error: None, ..old(self)@ }),
    {
        self.passphrase.set(text);
        self.inline_error = None;
    }

    /// Notes whether a worker runs.
    pub fn set_busy(&mut self, busy: bool)
        ensures
            final(self)@ == (ImportView { busy, ..old(self)@ }),
    {
        self.busy = busy;
    }

    /// Takes the result of a worker: it is idle again, and of error, warning
    /// and counts only the one that the result calls for is shown.
    pub fn apply_merge_outcome(&mut self, outcome: MergeOutcome)
        ensures
            final(self)@ == old(self)@.with_outcome(outcome),
    {
        self.busy = false;
        match outcome {
            MergeOutcome::Success(summary) => {
                self.merge_summary = Some(summary);
                self.inline_error = None;
                self.inline_warning = None;
            },
            MergeOutcome::DurabilityWarning(warning) => {
                self.inline_warning = Some(warning);
                self.merge_summary = None;
                self.inline_error = None;
            },
            MergeOutcome::NotCommitted(err) | MergeOutcome::Inline(err) => {
                self.inline_error = Some(err);
                self.merge_summary = None;
                self.inline_warning = None;
            },
        }
    }

    /// Drops the counts.
    pub fn dismiss_counts(&mut self)
        ensures
            final(self)@ == (ImportView { summary: None, ..old(self)@ }),
    {
        self.merge_summary = None;
    }
}

/// Decides what a press of the import button leads to.
pub fn compose_submit_outcome(state: &ImportDialogState) -> (r: SubmitOutcome)
    ensures
        r@ == state@.submission(),
{
    let source_path: FilePath = match &state.source_path {
        Some(path) => path.clone(),
        None => return SubmitOutcome::NeedsSourcePath,
    };
    let outcome: &PrecheckOutcome = match &state.precheck_outcome {
        Some(outcome) => outcome,
        None => return SubmitOutcome::AwaitingPrecheck,
    };
    match outcome {
        PrecheckOutcome::InlineError(err) => SubmitOutcome::Rejected(err.clone()),
        PrecheckOutcome::PromptForPassphrase => {
            if state.passphrase.is_empty() {
                return SubmitOutcome::AwaitingPassphrase;
            }
            let secret = Passphrase::new(state.passphrase.text());
            SubmitOutcome::Proceed(
                ImportSubmitPayload {
                    source_path,
                    options: build_import_options(state.format, Some(secret)),
                    conflict: state.conflict.into_policy(),
                },
            )
        },
        PrecheckOutcome::Proceed => SubmitOutcome::Proceed(
            ImportSubmitPayload {
                source_path,
                options: build_import_options(state.format, None),
                conflict: state.conflict.into_policy(),
            },
        ),
    }
}

/// Applies a message to the dialog and returns what it asks for.
pub fn apply_msg(state: &mut ImportDialogState, msg: ImportDialogMsg) -> (r: Option<
    ImportDialogOutput,
>)
    ensures
        (final(state)@, request_of(r)) == import_step(old(state)@, msg),
{
    match msg {
        ImportDialogMsg::Cancel => Some(ImportDialogOutput::Cancel),
        ImportDialogMsg::Close => Some(ImportDialogOutput::Close),
        ImportDialogMsg::SourcePathPicked { path, precheck } => {
            state.set_source_path(path, precheck);
            None
        },
        ImportDialogMsg::FormatChanged { format, precheck } => {
            state.set_format(format, precheck);
            None
        },
        ImportDialogMsg::ConflictChanged(conflict) => {
            state.set_conflict(conflict);
            None
        },
        ImportDialogMsg::PassphraseChanged(text) => {
            state.set_passphrase(text.as_str());
            None
        },
        ImportDialogMsg::SubmitClicked => match compose_submit_outcome(state) {
            SubmitOutcome::Proceed(payload) => {
                state.set_busy(true);
                state.inline_error = None;
                state.inline_warning = None;
                state.merge_summary = None;
                Some(ImportDialogOutput::Submit(payload))
            },
            SubmitOutcome::Rejected(err) => {
                state.inline_error = Some(err);
                None
            },
            SubmitOutcome::NeedsSourcePath
            | SubmitOutcome::AwaitingPrecheck
            | SubmitOutcome::AwaitingPassphrase => None,
        },
        ImportDialogMsg::SetBusy(busy) => {
            state.set_busy(busy);
            None
        },
        ImportDialogMsg::WorkerCompleted(outcome) => {
            state.apply_merge_outcome(outcome);
            None
        },
        ImportDialogMsg::DismissCounts => {
            state.dismiss_counts();
            Some(ImportDialogOutput::Close)
        },
    }
}

/// What of a source is shown: its file name, or all of it where it has none,
/// as the root and a path that ends in `..` have not.
pub open spec fn shown_source(bytes: Seq<u8>) -> Seq<u8> {
    match file_name_of(bytes) {
        Some(name) => name,
        None => bytes,
    }
}

/// What the source row shows.
pub fn compose_source_row_subtitle(state: &ImportDialogState) -> (r: String)
    ensures
        match state@.source {
            Some(bytes) => {
                &&& r@ == lossy_text(shown_source(bytes))
                &&& vstd::utf8::valid_utf8(shown_source(bytes)) ==> r@ == vstd::utf8::decode_utf8(
                    shown_source(bytes),
                )
            },
            None => r@ == "No file selected"@,
        },
{
    match state.source_path() {
        Some(path) => match path.file_name() {
            Some(name) => name.display(),
            None => path.display(),
        },
        None => format_import_dialog_source_row_placeholder().to_owned(),
    }
}

/// Whether the import button is sensitive.
pub fn compose_submit_button_sensitive(state: &ImportDialogState) -> (r: bool)
    ensures
        r == (!state@.busy && state@.submission() is Proceed),
{
    if state.is_busy() {
        return false;
    }
    match compose_submit_outcome(state) {
        SubmitOutcome::Proceed(_) => true,
        _ => false,
    }
}

/// Whether the passphrase row is shown.
pub fn compose_passphrase_row_visible(state: &ImportDialogState) -> (r: bool)
    ensures
        r == (state@.precheck == Some(PrecheckOutcome::PromptForPassphrase)),
{
    state.passphrase_visible()
}

/// Whether the counts panel is shown.
pub fn compose_counts_panel_visible(state: &ImportDialogState) -> (r: bool)
    ensures
        r == state@.summary is Some,
{
    state.merge_summary().is_some()
}

/// Count label of the imported accounts; none while the panel is hidden.
pub fn compose_counts_panel_imported_label(state: &ImportDialogState) -> (r: Option<String>)
    ensures
        match state@.summary {
            Some(summary) => r is Some && r->0@ == "Imported: "@ + decimal(summary.imported as nat),
            None => r is None,
        },
{
    match state.merge_summary() {
        Some(summary) => Some(joined("Imported: ", decimal_text(summary.imported as u64).as_str())),
        None => None,
    }
}

/// Count label of the skipped accounts; none while the panel is hidden.
pub fn compose_counts_panel_skipped_label(state: &ImportDialogState) -> (r: Option<String>)
    ensures
        match state@.summary {
            Some(summary) => r is Some && r->0@ == "Skipped: "@ + decimal(summary.skipped as nat),
            None => r is None,
        },
{
    match state.merge_summary() {
        Some(summary) => Some(joined("Skipped: ", decimal_text(summary.skipped as u64).as_str())),
        None => None,
    }
}

/// Count label of the replaced accounts; none while the panel is hidden.
pub fn compose_counts_panel_replaced_label(state: &ImportDialogState) -> (r: Option<String>)
    ensures
        match state@.summary {
            Some(summary) => r is Some && r->0@ == "Replaced: "@ + decimal(summary.replaced as nat),
            None => r is None,
        },
{
    match state.merge_summary() {
        Some(summary) => Some(joined("Replaced: ", decimal_text(summary.replaced as u64).as_str())),
        None => None,
    }
}

/// Count label of the appended accounts; none while the panel is hidden.
pub fn compose_counts_panel_appended_label(state: &ImportDialogState) -> (r: Option<String>)
    ensures
        match state@.summary {
            Some(summary) => r is Some && r->0@ == "Appended: "@ + decimal(summary.appended as nat),
            None => r is None,
        },
{
    match state.merge_summary() {
        Some(summary) => Some(joined("Appended: ", decimal_text(summary.appended as u64).as_str())),
        None => None,
    }
}

/// Count label of the warnings; none while the panel is hidden.
pub fn compose_counts_panel_warnings_label(state: &ImportDialogState) -> (r: Option<String>)
    ensures
        match state@.summary {
            Some(summary) => r is Some && r->0@ == "Warnings: "@ + decimal(summary.warnings as nat),
            None => r is None,
        },
{
    match state.merge_summary() {
        Some(summary) => Some(joined("Warnings: ", decimal_text(summary.warnings as u64).as_str())),
        None => None,
    }
}

/// Whether the error row is shown.
pub fn compose_inline_error_revealed(state: &ImportDialogState) -> (r: bool)
    ensures
        r == state@.error is Some,
{
    state.inline_error().is_some()
}

/// Text of the error row.
pub fn compose_inline_error_body(state: &ImportDialogState) -> (r: Option<&str>)
    ensures
        r is Some == state@.error is Some,
        r is Some ==> r->0@ == state@.error->0.rendered@,
{
    match state.inline_error() {
        Some(err) => Some(err.rendered.as_str()),
        None => None,
    }
}

/// Whether the warning row is shown.
pub fn compose_inline_warning_revealed(state: &ImportDialogState) -> (r: bool)
    ensures
        r == state@.warning is Some,
{
    state.inline_warning().is_some()
}

/// Text of the warning row.
pub fn compose_inline_warning_body(state: &ImportDialogState) -> (r: Option<&str>)
    ensures
        r is Some == state@.warning is Some,
        r is Some ==> r->0@ == state@.warning->0.rendered@,
{
    match state.inline_warning() {
        Some(warning) => Some(warning.rendered.as_str()),
        None => None,
    }
}

/// An import starts only from the import button, only with a source that was
/// looked at and not refused, and with a passphrase exactly when the look
/// asked for one; the passphrase is never empty.
pub proof fn imports_are_prechecked(s: ImportView, msg: ImportDialogMsg)
    requires
        import_step(s, msg).1 matches Some(ImportRequest::Submit(_)),
    ensures
        ({
            let job = import_step(s, msg).1->0->Submit_0;
            &&& msg is SubmitClicked
            &&& s.source == Some(job.source)
            &&& s.precheck == Some(PrecheckOutcome::Proceed) || s.precheck == Some(
                PrecheckOutcome::PromptForPassphrase,
            )
            &&& job.passphrase is Some <==> s.precheck == Some(PrecheckOutcome::PromptForPassphrase)
            &&& job.passphrase is Some ==> job.passphrase->0.len() > 0
            &&& job.format == forced(s.format)
            &&& job.conflict == policy(s.conflict)
        }),
{
}

/// While an import runs nothing of the last one is shown, and its return
/// leaves the dialog idle with exactly one of error, warning and counts.
pub proof fn import_shows_one_result(s: ImportView, outcome: MergeOutcome)
    requires
        s.submission() is Proceed,
    ensures
        ({
            let running = import_step(s, ImportDialogMsg::SubmitClicked).0;
            let done = import_step(running, ImportDialogMsg::WorkerCompleted(outcome)).0;
            &&& running.busy && running.error is None && running.warning is None
                && running.summary is None
            &&& !done.busy
            &&& done.error is Some <==> (outcome is NotCommitted || outcome is Inline)
            &&& done.warning is Some <==> outcome is DurabilityWarning
            &&& done.summary is Some <==> outcome is Success
        }),
{
}

/// Another source or another forced format wipes the passphrase.
pub proof fn change_of_source_wipes_passphrase(
    s: ImportView,
    path: FilePath,
    format: FormatChoice,
    precheck: PaladinImportPrecheck,
)
    ensures
        (s.source is None || denotation(s.source->0) != path@) ==> import_step(
            s,
            ImportDialogMsg::SourcePathPicked { path, precheck },
        ).0.passphrase.len() == 0,
        forced(s.format) != forced(format) ==> import_step(
            s,
            ImportDialogMsg::FormatChanged { format, precheck },
        ).0.passphrase.len() == 0,
{
}

/// An import carries what was chosen: the source, the policy of the same name as
/// the conflict choice, the format that the choice forces, and the passphrase as
/// it was typed where one was asked for.
pub proof fn import_carries_the_choices(s: ImportView)
    requires
        import_step(s, ImportDialogMsg::SubmitClicked).1 is Some,
    ensures
        ({
            let request = import_step(s, ImportDialogMsg::SubmitClicked).1->0;
            let job = request->Submit_0;
            &&& request is Submit
            &&& s.source == Some(job.source)
            &&& s.conflict == ConflictChoice::Skip ==> job.conflict == ImportConflict::Skip
            &&& s.conflict == ConflictChoice::Replace ==> job.conflict == ImportConflict::Replace
            &&& s.conflict == ConflictChoice::Append ==> job.conflict == ImportConflict::Append
            &&& s.format == FormatChoice::AutoDetect ==> job.format is None
            &&& s.format == FormatChoice::Otpauth ==> job.format == Some(ImportFormat::Otpauth)
            &&& s.format == FormatChoice::Aegis ==> job.format == Some(ImportFormat::Aegis)
            &&& s.format == FormatChoice::Paladin ==> job.format == Some(ImportFormat::Paladin)
            &&& s.format == FormatChoice::Qr ==> job.format == Some(ImportFormat::QrImage)
            &&& s.precheck == Some(PrecheckOutcome::PromptForPassphrase) ==> job.passphrase
                == Some(s.passphrase)
            &&& s.precheck == Some(PrecheckOutcome::Proceed) ==> job.passphrase is None
        }),
{
}

/// A press of the import button imports wherever a source was chosen, the look
/// at it found nothing wrong, and a passphrase was typed if it asked for one.
/// Where the source was refused, the press shows why.
pub proof fn sound_sources_are_imported(s: ImportView)
    ensures
        ({
            let (next, request) = import_step(s, ImportDialogMsg::SubmitClicked);
            &&& s.source is Some && s.precheck == Some(PrecheckOutcome::Proceed)
                ==> request is Some
            &&& s.source is Some && s.precheck == Some(PrecheckOutcome::PromptForPassphrase)
                && s.passphrase.len() > 0 ==> request is Some
            &&& s.source is None || s.precheck is None ==> request is None && next == s
            &&& s.precheck == Some(PrecheckOutcome::PromptForPassphrase)
                && s.passphrase.len() == 0 ==> request is None && next == s
            &&& s.source is Some && s.precheck is Some && s.precheck->0 is InlineError
                ==> request is None && next == (ImportView {
                error: Some(s.precheck->0->InlineError_0),
                ..s
            })
            &&& request is Some ==> next == (ImportView {
                busy: true,
                error: None,
                warning: None,
                summary: None,
                ..s
            })
        }),
{
}

/// The choices are what was last chosen, and a choice changes nothing but itself.
pub proof fn last_choice_counts(s: ImportView, conflict: ConflictChoice, text: String, busy: bool)
    ensures
        import_step(s, ImportDialogMsg::ConflictChanged(conflict)) == (
            ImportView { conflict, ..s },
            None::<ImportRequest>,
        ),
        import_step(s, ImportDialogMsg::PassphraseChanged(text)) == (
            ImportView { passphrase: text@, error: None, ..s },
            None::<ImportRequest>,
        ),
        import_step(s, ImportDialogMsg::SetBusy(busy)) == (
            ImportView { busy, ..s },
            None::<ImportRequest>,
        ),
        import_step(s, ImportDialogMsg::Cancel) == (s, Some(ImportRequest::Cancel)),
        import_step(s, ImportDialogMsg::Close) == (s, Some(ImportRequest::Close)),
        import_step(s, ImportDialogMsg::DismissCounts) == (
            ImportView { summary: None, ..s },
            Some(ImportRequest::Close),
        ),
{
}

/// A source or a format that is chosen is taken over with what the look at the
/// source says of it: go ahead, ask for a passphrase, or a refusal, which is
/// shown in the engine's words.
pub proof fn chosen_source_is_looked_at(
    s: ImportView,
    path: FilePath,
    format: FormatChoice,
    precheck: PaladinImportPrecheck,
)
    ensures
        ({
            let (picked, request) = import_step(
                s,
                ImportDialogMsg::SourcePathPicked { path, precheck },
            );
            &&& request is None
            &&& picked.source == Some(path.bytes@)
            &&& picked.format == s.format
            &&& picked.conflict == s.conflict
            &&& picked.busy == s.busy
            &&& picked.warning == s.warning
            &&& picked.summary == s.summary
            &&& s.source is Some && denotation(s.source->0) == denotation(path.bytes@)
                ==> picked.passphrase == s.passphrase
            &&& match precheck {
                PaladinImportPrecheck::NoPrompt => picked.precheck == Some(PrecheckOutcome::Proceed),
                PaladinImportPrecheck::PromptForPassphrase => picked.precheck == Some(
                    PrecheckOutcome::PromptForPassphrase,
                ),
                PaladinImportPrecheck::Reject(err) => {
                    &&& picked.precheck is Some && picked.precheck->0 is InlineError
                    &&& picked.error == Some(picked.precheck->0->InlineError_0)
                    &&& picked.error->0.kind == err.kind
                    &&& picked.error->0.rendered == err.rendered
                },
            }
            &&& !(precheck is Reject) && s.source is Some && denotation(s.source->0) == denotation(
                path.bytes@,
            ) ==> picked.error == s.error
            &&& !(precheck is Reject) && (s.source is None || denotation(s.source->0) != denotation(
                path.bytes@,
            )) ==> picked.error is None
        }),
        ({
            let (chosen, request) = import_step(
                s,
                ImportDialogMsg::FormatChanged { format, precheck },
            );
            &&& request is None
            &&& chosen.format == format
            &&& chosen.source == s.source
            &&& chosen.conflict == s.conflict
            &&& chosen.busy == s.busy
            &&& chosen.warning == s.warning
            &&& chosen.summary == s.summary
            &&& !(precheck is Reject) && s.precheck is Some && s.precheck->0 is InlineError
                ==> chosen.error is None
            &&& !(precheck is Reject) && !(s.precheck is Some && s.precheck->0 is InlineError)
                ==> chosen.error == s.error
            &&& s.format == format ==> chosen.passphrase == s.passphrase
            &&& s.format != format ==> chosen.passphrase.len() == 0
            &&& match precheck {
                PaladinImportPrecheck::NoPrompt => chosen.precheck == Some(PrecheckOutcome::Proceed),
                PaladinImportPrecheck::PromptForPassphrase => chosen.precheck == Some(
                    PrecheckOutcome::PromptForPassphrase,
                ),
                PaladinImportPrecheck::Reject(err) => {
                    &&& chosen.precheck is Some && chosen.precheck->0 is InlineError
                    &&& chosen.error == Some(chosen.precheck->0->InlineError_0)
                    &&& chosen.error->0.kind == err.kind
                    &&& chosen.error->0.rendered == err.rendered
                },
            }
        }),
{
}

/// The result of an import is what it shows: the counts of the report, or the
/// engine's words. A save that was rolled back and one that is not certain are
/// told apart from the rest.
pub proof fn result_of_import_is_shown(s: ImportView, result: Result<ImportReport, PaladinError>)
    ensures
        ({
            let (done, request) = import_step(
                s,
                ImportDialogMsg::WorkerCompleted(merge_outcome(result)),
            );
            &&& request is None
            &&& !done.busy
            &&& done.precheck == s.precheck && done.passphrase == s.passphrase
            &&& done.source == s.source && done.format == s.format && done.conflict == s.conflict
            &&& match result {
                Ok(report) => {
                    &&& done.error is None && done.warning is None && done.summary is Some
                    &&& done.summary->0.imported == report.imported
                    &&& done.summary->0.skipped == report.skipped
                    &&& done.summary->0.replaced == report.replaced
                    &&& done.summary->0.appended == report.appended
                    &&& report.warnings@.len() <= usize::MAX ==> done.summary->0.warnings
                        == report.warnings@.len()
                },
                Err(err) => if err.kind == ErrorKind::SaveDurabilityUnconfirmed {
                    &&& done.error is None && done.summary is None && done.warning is Some
                    &&& done.warning->0.kind == err.kind
                    &&& done.warning->0.rendered == err.rendered
                } else {
                    &&& done.warning is None && done.summary is None && done.error is Some
                    &&& done.error->0.kind == err.kind
                    &&& done.error->0.rendered == err.rendered
                },
            }
            &&& merge_outcome(result) is NotCommitted <==> result is Err && result->Err_0.kind
                == ErrorKind::SaveNotCommitted
        }),
{
}

/// The selectors list their choices in the order of their captions.
pub proof fn selectors_are_in_order(n: u32)
    ensures
        format_at(0) == Some(FormatChoice::AutoDetect),
        format_at(1) == Some(FormatChoice::Otpauth),
        format_at(2) == Some(FormatChoice::Aegis),
        format_at(3) == Some(FormatChoice::Paladin),
        format_at(4) == Some(FormatChoice::Qr),
        format_at(n) is Some <==> n < 5,
        conflict_at(0) == Some(ConflictChoice::Skip),
        conflict_at(1) == Some(ConflictChoice::Replace),
        conflict_at(2) == Some(ConflictChoice::Append),
        conflict_at(n) is Some <==> n < 3,
        policy(ConflictChoice::Skip) == ImportConflict::Skip,
        policy(ConflictChoice::Replace) == ImportConflict::Replace,
        policy(ConflictChoice::Append) == ImportConflict::Append,
{
}

/// What is handed on to the worker is the import that the dialog asks for.
pub proof fn payload_is_faithful(payload: ImportSubmitPayload)
    ensures
        request_of(Some(ImportDialogOutput::Submit(payload))) matches Some(
            ImportRequest::Submit(job),
        ) && {
            &&& job.source == payload.source_path.bytes@
            &&& job.conflict == payload.conflict
            &&& job.format == payload.options.format
            &&& job.passphrase is Some <==> payload.options.paladin_passphrase is Some
            &&& job.passphrase is Some ==> job.passphrase->0
                == payload.options.paladin_passphrase->0@
        },
        request_of(Some(ImportDialogOutput::Cancel)) == Some(ImportRequest::Cancel),
        request_of(Some(ImportDialogOutput::Close)) == Some(ImportRequest::Close),
        request_of(None) is None,
{
}

/// The source row shows the file name, where the source has one.
pub proof fn source_row_shows_the_name(directory: Seq<u8>, name: Seq<u8>)
    requires
        name.len() > 0,
        !name.contains(0x2f),
        name != seq![0x2eu8],
        name != seq![0x2eu8, 0x2eu8],
    ensures
        shown_source(directory + seq![0x2fu8] + name) == name,
        shown_source(name) == name,
        shown_source(seq![0x2fu8]) == seq![0x2fu8],
{
    file_name_follows_last_slash(directory, name);
    names_are_components(directory, name);
}

/// What stands in the way of an import: first a source that is missing, then a
/// look at it that is missing, then its refusal, then a passphrase that is missing.
pub proof fn obstacles_come_in_order(s: ImportView)
    ensures
        s.submission() is NeedsSourcePath <==> s.source is None,
        s.submission() is AwaitingPrecheck <==> s.source is Some && s.precheck is None,
        s.submission() is Rejected <==> s.source is Some && s.precheck is Some
            && s.precheck->0 is InlineError,
        s.submission() matches Submission::Rejected(err) ==> err == s.precheck->0->InlineError_0,
        s.submission() is AwaitingPassphrase <==> s.source is Some && s.precheck == Some(
            PrecheckOutcome::PromptForPassphrase,
        ) && s.passphrase.len() == 0,
        s.submission() matches Submission::Proceed(job) ==> import_step(
            s,
            ImportDialogMsg::SubmitClicked,
        ).1 == Some(ImportRequest::Submit(job)),
{
}

/// What a submission amounts to is told as it is.
pub proof fn submit_outcome_is_faithful(outcome: SubmitOutcome)
    ensures
        outcome is NeedsSourcePath ==> outcome@ is NeedsSourcePath,
        outcome is AwaitingPrecheck ==> outcome@ is AwaitingPrecheck,
        outcome is AwaitingPassphrase ==> outcome@ is AwaitingPassphrase,
        outcome matches SubmitOutcome::Proceed(payload) ==> request_of(
            Some(ImportDialogOutput::Submit(payload)),
        ) == Some(ImportRequest::Submit(outcome@->Proceed_0)) && outcome@ is Proceed,
        outcome matches SubmitOutcome::Rejected(err) ==> outcome@ == Submission::Rejected(err),
{
}

/// A dialog that was just opened has no source, finds the format by itself, keeps
/// the accounts that exist already and shows nothing.
pub proof fn fresh_dialog_has_nothing()
    ensures
        ({
            let s = ImportView::fresh();
            &&& s.source is None && s.precheck is None
            &&& s.format == FormatChoice::AutoDetect
            &&& s.conflict == ConflictChoice::Skip
            &&& s.passphrase.len() == 0
            &&& s.error is None && s.warning is None && s.summary is None
            &&& !s.busy
        }),
{
}

} // verus!

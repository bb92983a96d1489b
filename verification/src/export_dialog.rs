//! The export dialog: destination, format, the gates before a file is
//! overwritten or written in plaintext, and the passphrase of an encrypted
//! bundle.

pub use crate::inline::InlineError;
pub use crate::inline::InlineWarning;

use crate::inline::inline_error;
use crate::inline::inline_warning;
use crate::inline::PassphraseRefusals;
use crate::paths::denotation;
use crate::paths::lossy_text;
use crate::paths::FilePath;
use crate::secret_fields::SecretEntry;
use crate::text::joined;
use crate::text::same_text;
use crate::vault::EncryptionOptions;
use crate::vault::ErrorKind;
use crate::vault::PaladinError;
use crate::wiping::Passphrase;
use vstd::prelude::*;

verus! {

/// Format of an export.
#[derive(Clone, Copy, Debug, PartialEq, Eq, Structural)]
pub enum ExportFormatChoice {
    /// List of `otpauth://` URIs, in plaintext.
    PlaintextOtpauth,
    /// Encrypted bundle.
    EncryptedPaladin,
}

impl Default for ExportFormatChoice {
    fn default() -> (r: Self)
        ensures
            r == ExportFormatChoice::PlaintextOtpauth,
    {
        ExportFormatChoice::PlaintextOtpauth
    }
}

/// Position of a format in the selector.
pub open spec fn format_index(format: ExportFormatChoice) -> u32 {
    match format {
        ExportFormatChoice::PlaintextOtpauth => 0,
        ExportFormatChoice::EncryptedPaladin => 1,
    }
}

/// Format at a position of the selector.
pub open spec fn format_at(selected: u32) -> Option<ExportFormatChoice> {
    if selected == 0 {
        Some(ExportFormatChoice::PlaintextOtpauth)
    } else if selected == 1 {
        Some(ExportFormatChoice::EncryptedPaladin)
    } else {
        None
    }
}

impl ExportFormatChoice {
    /// Whether the format is written in plaintext.
    pub fn requires_plaintext_warning(self) -> (r: bool)
        ensures
            r == (self == ExportFormatChoice::PlaintextOtpauth),
    {
        match self {
            ExportFormatChoice::PlaintextOtpauth => true,
            ExportFormatChoice::EncryptedPaladin => false,
        }
    }

    /// Whether the format takes a passphrase.
    pub fn requires_passphrase(self) -> (r: bool)
        ensures
            r == (self == ExportFormatChoice::EncryptedPaladin),
    {
        match self {
            ExportFormatChoice::EncryptedPaladin => true,
            ExportFormatChoice::PlaintextOtpauth => false,
        }
    }

    /// Position in the selector.
    pub fn index(self) -> (r: u32)
        ensures
            r == format_index(self),
    {
        match self {
            ExportFormatChoice::PlaintextOtpauth => 0,
            ExportFormatChoice::EncryptedPaladin => 1,
        }
    }
}

/// Format at a position of the selector.
pub fn format_choice_from_index(selected: u32) -> (r: Option<ExportFormatChoice>)
    ensures
        r == format_at(selected),
{
    match selected {
        0 => Some(ExportFormatChoice::PlaintextOtpauth),
        1 => Some(ExportFormatChoice::EncryptedPaladin),
        _ => None,
    }
}

/// A format is found again at its position, and a position that holds a
/// format is that format's.
pub proof fn format_positions_round_trip(format: ExportFormatChoice, selected: u32)
    ensures
        format_at(format_index(format)) == Some(format),
        format_at(selected) is Some ==> format_index(format_at(selected)->0) == selected,
{
}

/// Captions of the selector, in the order of the positions.
pub fn format_export_dialog_format_labels() -> (r: [&'static str; 2])
    ensures
        r[0]@ == "Plaintext otpauth:// URI list"@,
        r[1]@ == "Encrypted Paladin bundle"@,
{
    ["Plaintext otpauth:// URI list", "Encrypted Paladin bundle"]
}

/// Title of the dialog.
pub fn format_export_dialog_title() -> (r: &'static str)
    ensures
        r@ == "Export"@,
{
    "Export"
}

/// Subtitle of the dialog.
pub fn format_export_dialog_subtitle() -> (r: &'static str)
    ensures
        r@ == "Write the visible accounts to a file."@,
{
    "Write the visible accounts to a file."
}

/// Title of the destination group.
pub fn format_export_dialog_destination_group_title() -> (r: &'static str)
    ensures
        r@ == "Destination"@,
{
    "Destination"
}

/// Title of the destination row.
pub fn format_export_dialog_destination_row_title() -> (r: &'static str)
    ensures
        r@ == "File"@,
{
    "File"
}

/// What the destination row shows before a file is chosen.
pub fn format_export_dialog_destination_row_placeholder() -> (r: &'static str)
    ensures
        r@ == "No file selected"@,
{
    "No file selected"
}

/// Caption of the button that chooses the file.
pub fn format_export_dialog_choose_destination_label() -> (r: &'static str)
    ensures
        r@ == "Choose file…"@,
{
    "Choose file…"
}

/// Title of the options group.
pub fn format_export_dialog_options_group_title() -> (r: &'static str)
    ensures
        r@ == "Options"@,
{
    "Options"
}

/// Title of the format row.
pub fn format_export_dialog_format_row_title() -> (r: &'static str)
    ensures
        r@ == "Format"@,
{
    "Format"
}

/// Title of the overwrite switch.
pub fn format_export_dialog_overwrite_gate_title() -> (r: &'static str)
    ensures
        r@ == "Overwrite existing file"@,
{
    "Overwrite existing file"
}

/// Subtitle of the overwrite switch.
pub fn format_export_dialog_overwrite_gate_subtitle() -> (r: &'static str)
    ensures
        r@ == "The selected file already exists. Toggle on to replace it on Export."@,
{
    "The selected file already exists. Toggle on to replace it on Export."
}

/// Title of the warning group.
pub fn format_export_dialog_plaintext_warning_group_title() -> (r: &'static str)
    ensures
        r@ == "Plaintext warning"@,
{
    "Plaintext warning"
}

/// Title of the acknowledgement switch.
pub fn format_export_dialog_plaintext_warning_ack_title() -> (r: &'static str)
    ensures
        r@ == "I understand the risks"@,
{
    "I understand the risks"
}

/// Subtitle of the acknowledgement switch.
pub fn format_export_dialog_plaintext_warning_ack_subtitle() -> (r: &'static str)
    ensures
        r@ == "Toggle on to confirm and enable Export."@,
{
    "Toggle on to confirm and enable Export."
}

/// Title of the passphrase group.
pub fn format_export_dialog_passphrase_group_title() -> (r: &'static str)
    ensures
        r@ == "Bundle passphrase"@,
{
    "Bundle passphrase"
}

/// Title of the passphrase row.
pub fn format_export_dialog_passphrase_row_title() -> (r: &'static str)
    ensures
        r@ == "Passphrase"@,
{
    "Passphrase"
}

/// Title of the row that confirms the passphrase.
pub fn format_export_dialog_confirm_passphrase_row_title() -> (r: &'static str)
    ensures
        r@ == "Confirm passphrase"@,
{
    "Confirm passphrase"
}

/// Caption of the cancel button.
pub fn format_export_dialog_cancel_label() -> (r: &'static str)
    ensures
        r@ == "Cancel"@,
{
    "Cancel"
}

/// Caption of the export button.
pub fn format_export_dialog_export_label() -> (r: &'static str)
    ensures
        r@ == "Export"@,
{
    "Export"
}

/// Whether the destination or the format is another one.
pub open spec fn target_changed(
    prev_dest: Seq<u8>,
    prev_format: ExportFormatChoice,
    new_dest: Seq<u8>,
    new_format: ExportFormatChoice,
) -> bool {
    denotation(prev_dest) != denotation(new_dest) || prev_format != new_format
}

fn destination_or_format_changed(
    prev_dest: &FilePath,
    prev_format: ExportFormatChoice,
    new_dest: &FilePath,
    new_format: ExportFormatChoice,
) -> (r: bool)
    ensures
        r == target_changed(prev_dest.bytes@, prev_format, new_dest.bytes@, new_format),
{
    !prev_dest.same_as(new_dest) || prev_format != new_format
}

/// Whether the overwrite acknowledgement has to be given anew.
pub fn overwrite_gate_needs_reset(
    prev_dest: &FilePath,
    prev_format: ExportFormatChoice,
    new_dest: &FilePath,
    new_format: ExportFormatChoice,
) -> (r: bool)
    ensures
        r == target_changed(prev_dest.bytes@, prev_format, new_dest.bytes@, new_format),
{
    destination_or_format_changed(prev_dest, prev_format, new_dest, new_format)
}

/// Whether the plaintext acknowledgement has to be given anew.
pub fn plaintext_warning_needs_reset(
    prev_dest: &FilePath,
    prev_format: ExportFormatChoice,
    new_dest: &FilePath,
    new_format: ExportFormatChoice,
) -> (r: bool)
    ensures
        r == target_changed(prev_dest.bytes@, prev_format, new_dest.bytes@, new_format),
{
    destination_or_format_changed(prev_dest, prev_format, new_dest, new_format)
}

/// Whether the passphrase has to be typed anew.
pub fn passphrase_needs_reset(
    prev_dest: &FilePath,
    prev_format: ExportFormatChoice,
    new_dest: &FilePath,
    new_format: ExportFormatChoice,
) -> (r: bool)
    ensures
        r == target_changed(prev_dest.bytes@, prev_format, new_dest.bytes@, new_format),
{
    destination_or_format_changed(prev_dest, prev_format, new_dest, new_format)
}

/// Why a passphrase pair is refused.
#[derive(Clone, Copy, Debug, PartialEq, Eq, Structural)]
pub enum SubmitRejection {
    /// The two entries differ.
    ConfirmationMismatch,
    /// Both entries are empty.
    ZeroLength,
}

/// The reason code of a refusal.
pub open spec fn rejection_reason(rejection: SubmitRejection) -> Seq<char> {
    match rejection {
        SubmitRejection::ConfirmationMismatch => "confirmation_mismatch"@,
        SubmitRejection::ZeroLength => "zero_length"@,
    }
}

impl SubmitRejection {
    /// The error kind of the refusal.
    pub fn error_kind(&self) -> (r: ErrorKind)
        ensures
            r == ErrorKind::InvalidPassphrase,
    {
        ErrorKind::InvalidPassphrase
    }

    /// The reason code of the refusal.
    pub fn reason(&self) -> (r: &'static str)
        ensures
            r@ == rejection_reason(*self),
    {
        match self {
            SubmitRejection::ConfirmationMismatch => "confirmation_mismatch",
            SubmitRejection::ZeroLength => "zero_length",
        }
    }
}

/// The passphrase of a typed pair, or why it is refused; a mismatch is
/// reported before an empty passphrase.
pub open spec fn typed_pair(passphrase: Seq<char>, confirm: Seq<char>) -> Result<
    Seq<char>,
    SubmitRejection,
> {
    if passphrase != confirm {
        Err(SubmitRejection::ConfirmationMismatch)
    } else if passphrase.len() == 0 {
        Err(SubmitRejection::ZeroLength)
    } else {
        Ok(passphrase)
    }
}

/// Checks a typed pair and builds the encryption options.
pub fn prepare_encrypted_export(passphrase: &str, confirm: &str) -> (r: Result<
    EncryptionOptions,
    SubmitRejection,
>)
    ensures
        match r {
            Ok(options) => typed_pair(passphrase@, confirm@) == Ok::<Seq<char>, SubmitRejection>(
                options@,
            ),
            Err(rejection) => typed_pair(passphrase@, confirm@) == Err::<
                Seq<char>,
                SubmitRejection,
            >(rejection),
        },
{
    if !same_text(passphrase, confirm) {
        return Err(SubmitRejection::ConfirmationMismatch);
    }
    if passphrase.is_empty() {
        return Err(SubmitRejection::ZeroLength);
    }
    match EncryptionOptions::new(Passphrase::new(passphrase)) {
        Some(options) => Ok(options),
        None => Err(SubmitRejection::ZeroLength),
    }
}

/// Result of the writer.
#[derive(Debug)]
pub enum ExportOutcome {
    /// The file is written.
    Success,
    /// The file is written, but its durability is not certain.
    DurabilityWarning(InlineWarning),
    /// The file is not written.
    Inline(InlineError),
}

/// What the writer's result means for the dialog.
pub open spec fn export_outcome(result: Result<(), PaladinError>) -> ExportOutcome {
    match result {
        Ok(_) => ExportOutcome::Success,
        Err(err) => if err.kind == ErrorKind::SaveDurabilityUnconfirmed {
            ExportOutcome::DurabilityWarning(inline_warning(err))
        } else {
            ExportOutcome::Inline(inline_error(err))
        },
    }
}

/// Decides what the writer's result means for the dialog.
pub fn classify_export_result(result: Result<(), PaladinError>) -> (r: ExportOutcome)
    ensures
        r == export_outcome(result),
{
    match result {
        Ok(()) => ExportOutcome::Success,
        Err(err) => match err.kind() {
            ErrorKind::SaveDurabilityUnconfirmed => {
                ExportOutcome::DurabilityWarning(InlineWarning::from_error(&err))
            },
            _ => ExportOutcome::Inline(InlineError::from_error(&err)),
        },
    }
}

/// The inline form of a refusal.
pub open spec fn rejection_error(
    rejection: SubmitRejection,
    refusals: PassphraseRefusals,
) -> InlineError {
    InlineError {
        kind: ErrorKind::InvalidPassphrase,
        rendered: match rejection {
            SubmitRejection::ConfirmationMismatch => refusals.confirmation_mismatch,
            SubmitRejection::ZeroLength => refusals.zero_length,
        },
    }
}

impl InlineError {
    /// The inline form of a refused passphrase pair.
    pub fn from_rejection(rejection: SubmitRejection, refusals: &PassphraseRefusals) -> (r: Self)
        ensures
            r == rejection_error(rejection, *refusals),
    {
        let rendered: String = match rejection {
            SubmitRejection::ConfirmationMismatch => refusals.confirmation_mismatch.clone(),
            SubmitRejection::ZeroLength => refusals.zero_length.clone(),
        };
        InlineError { kind: rejection.error_kind(), rendered }
    }
}

/// What the worker is to write.
#[derive(Debug)]
pub struct ExportSubmitPayload {
    /// Where it is written.
    pub destination: FilePath,
    /// How it is written.
    pub format: ExportFormatChoice,
    /// Encryption, for the encrypted format alone.
    pub encryption_options: Option<EncryptionOptions>,
}

/// What the worker is handed. `V` is the open vault and `S` its store.
#[derive(Debug)]
pub struct ExportWorkerInput<V, S> {
    /// The vault.
    pub vault: V,
    /// Its store.
    pub store: S,
    /// Where the export is written.
    pub destination: FilePath,
    /// How it is written.
    pub format: ExportFormatChoice,
    /// Encryption, for the encrypted format alone.
    pub encryption_options: Option<EncryptionOptions>,
}

/// What the worker hands back: vault and store always return.
#[derive(Debug)]
pub struct ExportWorkerCompletion<V, S> {
    /// What the export means for the dialog.
    pub outcome: ExportOutcome,
    /// The vault.
    pub vault: V,
    /// Its store.
    pub store: S,
    /// Where the export was to be written.
    pub destination: FilePath,
}

/// Renders an export and writes it. `plaintext` and `encrypted` render the
/// vault; `write` writes what was rendered, and is not called where nothing
/// was. Vault, store and destination return unchanged.
pub fn run_export_worker<
    V,
    S,
    P: FnOnce(&V) -> Vec<u8>,
    E: FnOnce(&V, EncryptionOptions) -> Result<Vec<u8>, PaladinError>,
    W: FnOnce(&FilePath, &Vec<u8>) -> Result<(), PaladinError>,
>(input: ExportWorkerInput<V, S>, plaintext: P, encrypted: E, write: W) -> (r:
    ExportWorkerCompletion<V, S>)
    requires
        input.format is EncryptedPaladin ==> input.encryption_options is Some,
        input.format is PlaintextOtpauth ==> call_requires(plaintext, (&input.vault,)),
        input.format is EncryptedPaladin ==> call_requires(
            encrypted,
            (&input.vault, input.encryption_options->0),
        ),
        forall|bytes: Vec<u8>|
            input.format is PlaintextOtpauth && call_ensures(plaintext, (&input.vault,), bytes)
                ==> #[trigger] call_requires(write, (&input.destination, &bytes)),
        forall|bytes: Vec<u8>|
            input.format is EncryptedPaladin && call_ensures(
                encrypted,
                (&input.vault, input.encryption_options->0),
                Ok(bytes),
            ) ==> #[trigger] call_requires(write, (&input.destination, &bytes)),
    ensures
        r.vault == input.vault,
        r.store == input.store,
        r.destination == input.destination,
        input.format is PlaintextOtpauth ==> exists|bytes: Vec<u8>, written: Result<(), PaladinError>|
            {
                &&& #[trigger] call_ensures(plaintext, (&input.vault,), bytes)
                &&& #[trigger] call_ensures(write, (&input.destination, &bytes), written)
                &&& r.outcome == export_outcome(written)
            },
        input.format is EncryptedPaladin ==> exists|rendered: Result<Vec<u8>, PaladinError>|
            {
                &&& #[trigger] call_ensures(
                    encrypted,
                    (&input.vault, input.encryption_options->0),
                    rendered,
                )
                &&& match rendered {
                    Ok(bytes) => exists|written: Result<(), PaladinError>|
                        {
                            &&& #[trigger] call_ensures(
                                write,
                                (&input.destination, &bytes),
                                written,
                            )
                            &&& r.outcome == export_outcome(written)
                        },
                    Err(err) => r.outcome == export_outcome(Err(err)),
                }
            },
{
    let rendered: Result<Vec<u8>, PaladinError> = match input.format {
        ExportFormatChoice::PlaintextOtpauth => Ok(plaintext(&input.vault)),
        ExportFormatChoice::EncryptedPaladin => {
            encrypted(&input.vault, input.encryption_options.unwrap())
        },
    };
    let written: Result<(), PaladinError> = match rendered {
        Ok(bytes) => write(&input.destination, &bytes),
        Err(err) => Err(err),
    };
    ExportWorkerCompletion {
        outcome: classify_export_result(written),
        vault: input.vault,
        store: input.store,
        destination: input.destination,
    }
}

/// What the worker is to write, in mathematical terms.
pub struct ExportJob {
    /// Bytes of the destination.
    pub destination: Seq<u8>,
    /// Format.
    pub format: ExportFormatChoice,
    /// Passphrase of the encrypted format.
    pub passphrase: Option<Seq<char>>,
}

impl View for ExportSubmitPayload {
    type V = ExportJob;

    open spec fn view(&self) -> ExportJob {
        ExportJob {
            destination: self.destination.bytes@,
            format: self.format,
            passphrase: match self.encryption_options {
                Some(options) => Some(options@),
                None => None,
            },
        }
    }
}

/// What a press of the export button leads to.
#[derive(Debug)]
pub enum SubmitOutcome {
    /// The export starts.
    Proceed(ExportSubmitPayload),
    /// The passphrase pair is refused.
    Rejected(InlineError),
    /// A gate is closed.
    NotReady,
}

/// What a press of the export button leads to, in mathematical terms.
pub enum Submission {
    /// The export starts.
    Proceed(ExportJob),
    /// The passphrase pair is refused.
    Rejected(InlineError),
    /// A gate is closed.
    NotReady,
}

impl View for SubmitOutcome {
    type V = Submission;

    open spec fn view(&self) -> Submission {
        match self {
            SubmitOutcome::Proceed(payload) => Submission::Proceed(payload@),
            SubmitOutcome::Rejected(err) => Submission::Rejected(*err),
            SubmitOutcome::NotReady => Submission::NotReady,
        }
    }
}

/// What the dialog is opened with.
#[derive(Clone, Debug)]
pub struct ExportDialogInit {
    /// The vault that is exported.
    pub vault_path: FilePath,
}

/// What happens in the dialog.
#[derive(Debug)]
pub enum ExportDialogMsg {
    /// A destination was chosen.
    DestinationPicked {
        /// The destination.
        path: FilePath,
        /// Whether there is a file; `true` where that is not certain.
        exists: bool,
    },
    /// The format was changed.
    FormatChanged(ExportFormatChoice),
    /// The overwrite switch was toggled.
    OverwriteAcknowledged(bool),
    /// The acknowledgement switch was toggled.
    PlaintextWarningAcknowledged(bool),
    /// The passphrase was edited.
    PassphraseChanged(String),
    /// The confirmation was edited.
    ConfirmPassphraseChanged(String),
    /// The export button was pressed.
    SubmitClicked,
    /// The cancel button was pressed.
    Cancel,
    /// The dialog was dismissed.
    Close,
    /// A worker started or ended.
    SetBusy(bool),
    /// The worker returned.
    WorkerCompleted(ExportOutcome),
}

/// What the dialog asks for.
#[derive(Debug)]
pub enum ExportDialogOutput {
    /// Drop the dialog: it was cancelled.
    Cancel,
    /// Drop the dialog: it was dismissed or is done.
    Close,
    /// Run the export.
    Submit(ExportSubmitPayload),
}

/// What the dialog asks for, in mathematical terms.
pub enum ExportRequest {
    /// Drop the dialog: it was cancelled.
    Cancel,
    /// Drop the dialog: it was dismissed or is done.
    Close,
    /// Run the export.
    Submit(ExportJob),
}

/// What the dialog asks for, in mathematical terms.
pub open spec fn request_of(output: Option<ExportDialogOutput>) -> Option<ExportRequest> {
    match output {
        Some(ExportDialogOutput::Cancel) => Some(ExportRequest::Cancel),
        Some(ExportDialogOutput::Close) => Some(ExportRequest::Close),
        Some(ExportDialogOutput::Submit(payload)) => Some(ExportRequest::Submit(payload@)),
        None => None,
    }
}

/// State of the dialog in mathematical terms.
pub struct ExportView {
    /// Bytes of the destination.
    pub destination: Option<Seq<u8>>,
    /// Whether there is a file at the destination.
    pub exists: bool,
    /// Format.
    pub format: ExportFormatChoice,
    /// Whether overwriting is acknowledged.
    pub overwrite: bool,
    /// Whether the plaintext warning is acknowledged.
    pub acknowledged: bool,
    /// Text of the passphrase entry.
    pub passphrase: Seq<char>,
    /// Text of the confirming entry.
    pub confirm: Seq<char>,
    /// Error shown.
    pub error: Option<InlineError>,
    /// Warning shown.
    pub warning: Option<InlineWarning>,
    /// Whether a worker runs.
    pub busy: bool,
}

impl ExportView {
    /// An untouched dialog.
    pub open spec fn fresh() -> Self {
        ExportView {
            destination: None,
            exists: false,
            format: ExportFormatChoice::PlaintextOtpauth,
            overwrite: false,
            acknowledged: false,
            passphrase: Seq::empty(),
            confirm: Seq::empty(),
            error: None,
            warning: None,
            busy: false,
        }
    }

    /// With both passphrase entries wiped.
    pub open spec fn without_secrets(self) -> Self {
        ExportView { passphrase: Seq::empty(), confirm: Seq::empty(), ..self }
    }

    /// Whether the overwrite switch is shown.
    pub open spec fn asks_overwrite(self) -> bool {
        self.destination is Some && self.exists
    }

    /// Whether the plaintext warning is shown.
    pub open spec fn warns(self) -> bool {
        self.format == ExportFormatChoice::PlaintextOtpauth
    }

    /// After the choice of a destination. Acknowledgements hold for one
    /// destination; a typed passphrase outlives the first choice but no
    /// change.
    pub open spec fn with_destination(self, path: Seq<u8>, exists: bool) -> Self {
        let changed = match self.destination {
            Some(prev) => denotation(prev) != denotation(path),
            None => true,
        };
        let replaced = self.destination is Some && changed;
        ExportView {
            destination: Some(path),
            exists,
            overwrite: self.overwrite && !changed,
            acknowledged: self.acknowledged && !changed,
            passphrase: if replaced {
                Seq::empty()
            } else {
                self.passphrase
            },
            confirm: if replaced {
                Seq::empty()
            } else {
                self.confirm
            },
            error: if replaced {
                None
            } else {
                self.error
            },
            ..self
        }
    }

    /// After the choice of a format. The overwrite acknowledgement is about a
    /// file, so without a destination it stays.
    pub open spec fn with_format(self, format: ExportFormatChoice) -> Self {
        let changed = self.format != format;
        ExportView {
            format,
            overwrite: self.overwrite && !(changed && self.destination is Some),
            acknowledged: self.acknowledged && !changed,
            passphrase: if changed {
                Seq::empty()
            } else {
                self.passphrase
            },
            confirm: if changed {
                Seq::empty()
            } else {
                self.confirm
            },
            error: if changed {
                None
            } else {
                self.error
            },
            ..self
        }
    }

    /// Whether every gate but the passphrase is open.
    pub open spec fn gates_open(self) -> bool {
        &&& self.destination is Some
        &&& self.asks_overwrite() ==> self.overwrite
        &&& self.warns() ==> self.acknowledged
    }

    /// What a press of the export button leads to.
    pub open spec fn submission(self, refusals: PassphraseRefusals) -> Submission {
        if !self.gates_open() {
            Submission::NotReady
        } else if self.format == ExportFormatChoice::EncryptedPaladin {
            match typed_pair(self.passphrase, self.confirm) {
                Ok(passphrase) => Submission::Proceed(
                    ExportJob {
                        destination: self.destination->0,
                        format: self.format,
                        passphrase: Some(passphrase),
                    },
                ),
                Err(rejection) => Submission::Rejected(rejection_error(rejection, refusals)),
            }
        } else {
            Submission::Proceed(
                ExportJob {
                    destination: self.destination->0,
                    format: self.format,
                    passphrase: None,
                },
            )
        }
    }

    /// Whether the export button is sensitive.
    pub open spec fn submittable(self) -> bool {
        &&& !self.busy
        &&& self.gates_open()
        &&& self.format == ExportFormatChoice::EncryptedPaladin ==> typed_pair(
            self.passphrase,
            self.confirm,
        ) is Ok
    }
}

/// The dialog after a message, and what it asks for.
pub open spec fn export_step(
    s: ExportView,
    msg: ExportDialogMsg,
    refusals: PassphraseRefusals,
) -> (ExportView, Option<ExportRequest>) {
    match msg {
        ExportDialogMsg::DestinationPicked { path, exists } => (
            s.with_destination(path.bytes@, exists),
            None,
        ),
        ExportDialogMsg::FormatChanged(format) => (s.with_format(format), None),
        ExportDialogMsg::OverwriteAcknowledged(overwrite) => (
            ExportView { overwrite, ..s },
            None,
        ),
        ExportDialogMsg::PlaintextWarningAcknowledged(acknowledged) => (
            ExportView { acknowledged, ..s },
            None,
        ),
        ExportDialogMsg::PassphraseChanged(text) => (
            ExportView { passphrase: text@, error: None, ..s },
            None,
        ),
        ExportDialogMsg::ConfirmPassphraseChanged(text) => (
            ExportView { confirm: text@, error: None, ..s },
            None,
        ),
        ExportDialogMsg::SubmitClicked => if s.busy {
            (s, None)
        } else {
            match s.submission(refusals) {
                Submission::Proceed(job) => (
                    ExportView { error: None, warning: None, ..s.without_secrets() },
                    Some(ExportRequest::Submit(job)),
                ),
                Submission::Rejected(err) => (ExportView { error: Some(err), ..s }, None),
                Submission::NotReady => (s, None),
            }
        },
        ExportDialogMsg::SetBusy(busy) => (ExportView { busy, ..s }, None),
        ExportDialogMsg::WorkerCompleted(outcome) => match outcome {
            ExportOutcome::Success => (
                ExportView { busy: false, error: None, warning: None, ..s.without_secrets() },
                Some(ExportRequest::Close),
            ),
            ExportOutcome::DurabilityWarning(warning) => (
                ExportView { busy: false, error: None, warning: Some(warning), ..s },
                None,
            ),
            ExportOutcome::Inline(err) => (
                ExportView { busy: false, error: Some(err), warning: None, ..s },
                None,
            ),
        },
        ExportDialogMsg::Cancel => (s.without_secrets(), Some(ExportRequest::Cancel)),
        ExportDialogMsg::Close => (s.without_secrets(), Some(ExportRequest::Close)),
    }
}

/// State of the dialog.
pub struct ExportDialogState {
    destination_path: Option<FilePath>,
    destination_exists: bool,
    format: ExportFormatChoice,
    overwrite_acknowledged: bool,
    plaintext_warning_acknowledged: bool,
    passphrase: SecretEntry,
    confirm_passphrase: SecretEntry,
    inline_error: Option<InlineError>,
    inline_warning: Option<InlineWarning>,
    busy: bool,
}

impl View for ExportDialogState {
    type V = ExportView;

    closed spec fn view(&self) -> ExportView {
        ExportView {
            destination: match self.destination_path {
                Some(path) => Some(path.bytes@),
                None => None,
            },
            exists: self.destination_exists,
            format: self.format,
            overwrite: self.overwrite_acknowledged,
            acknowledged: self.plaintext_warning_acknowledged,
            passphrase: self.passphrase@,
            confirm: self.confirm_passphrase@,
            error: self.inline_error,
            warning: self.inline_warning,
            busy: self.busy,
        }
    }
}

impl Default for ExportDialogState {
    fn default() -> (r: Self)
        ensures
            r@ == ExportView::fresh(),
    {
        ExportDialogState {
            destination_path: None,
            destination_exists: false,
            format: ExportFormatChoice::PlaintextOtpauth,
            overwrite_acknowledged: false,
            plaintext_warning_acknowledged: false,
            passphrase: SecretEntry::new(),
            confirm_passphrase: SecretEntry::new(),
            inline_error: None,
            inline_warning: None,
            busy: false,
        }
    }
}

impl ExportDialogState {
    /// An untouched dialog.
    pub fn new() -> (r: Self)
        ensures
            r@ == ExportView::fresh(),
    {
        ExportDialogState::default()
    }

    /// The destination.
    pub fn destination_path(&self) -> (r: Option<&FilePath>)
        ensures
            r is Some == self@.destination is Some,
            r is Some ==> r->0.bytes@ == self@.destination->0,
    {
        match &self.destination_path {
            Some(path) => Some(path),
            None => None,
        }
    }

    /// Whether there is a file at the destination.
    pub fn destination_exists(&self) -> (r: bool)
        ensures
            r == self@.exists,
    {
        self.destination_exists
    }

    /// The format.
    pub fn format(&self) -> (r: ExportFormatChoice)
        ensures
            r == self@.format,
    {
        self.format
    }

    /// Whether overwriting is acknowledged.
    pub fn is_overwrite_acknowledged(&self) -> (r: bool)
        ensures
            r == self@.overwrite,
    {
        self.overwrite_acknowledged
    }

    /// Whether the plaintext warning is acknowledged.
    pub fn is_plaintext_warning_acknowledged(&self) -> (r: bool)
        ensures
            r == self@.acknowledged,
    {
        self.plaintext_warning_acknowledged
    }

    /// Sets the destination and whether there is a file.
    pub fn set_destination(&mut self, path: FilePath, exists: bool)
        ensures
            final(self)@ == old(self)@.with_destination(path.bytes@, exists),
    {
        let format = self.format;
        let (reset_overwrite, reset_plaintext, reset_passphrase): (bool, bool, bool) = match &self.destination_path {
            Some(prev) => (
                overwrite_gate_needs_reset(prev, format, &path, format),
                plaintext_warning_needs_reset(prev, format, &path, format),
                passphrase_needs_reset(prev, format, &path, format),
            ),
            None => (true, true, false),
        };
        if reset_overwrite {
            self.overwrite_acknowledged = false;
        }
        if reset_plaintext {
            self.plaintext_warning_acknowledged = false;
        }
        if reset_passphrase {
            self.passphrase.clear();
            self.confirm_passphrase.clear();
            self.inline_error = None;
        }
        self.destination_path = Some(path);
        self.destination_exists = exists;
    }

    /// Sets the format.
    pub fn set_format(&mut self, format: ExportFormatChoice)
        ensures
            final(self)@ == old(self)@.with_format(format),
    {
        let prev_format = self.format;
        let (reset_overwrite, reset_plaintext, reset_passphrase): (bool, bool, bool) = match &self.destination_path {
            Some(dest) => (
                overwrite_gate_needs_reset(dest, prev_format, dest, format),
                plaintext_warning_needs_reset(dest, prev_format, dest, format),
                passphrase_needs_reset(dest, prev_format, dest, format),
            ),
            None => (false, prev_format != format, prev_format != format),
        };
        if reset_overwrite {
            self.overwrite_acknowledged = false;
        }
        if reset_plaintext {
            self.plaintext_warning_acknowledged = false;
        }
        if reset_passphrase {
            self.passphrase.clear();
            self.confirm_passphrase.clear();
            self.inline_error = None;
        }
        self.format = format;
    }

    /// Sets the overwrite acknowledgement.
    pub fn set_overwrite_acknowledged(&mut self, acknowledged: bool)
        ensures
            final(self)@ == (ExportView { overwrite: acknowledged, ..old(self)@ }),
    {
        self.overwrite_acknowledged = acknowledged;
    }

    /// Sets the plaintext acknowledgement.
    pub fn set_plaintext_warning_acknowledged(&mut self, acknowledged: bool)
        ensures
            final(self)@ == (ExportView { acknowledged, ..old(self)@ }),
    {
        self.plaintext_warning_acknowledged = acknowledged;
    }

    /// Text of the passphrase entry.
    pub fn passphrase_text(&self) -> (r: &str)
        ensures
            r@ == self@.passphrase,
    {
        self.passphrase.text()
    }

    /// Text of the confirming entry.
    pub fn confirm_passphrase_text(&self) -> (r: &str)
        ensures
            r@ == self@.confirm,
    {
        self.confirm_passphrase.text()
    }

    /// Replaces the passphrase and drops the error.
    pub fn set_passphrase(&mut self, text: &str)
        ensures
            final(self)@ == (ExportView { passphrase: text@, error: None, ..old(self)@ }),
    {
        self.passphrase.set(text);
        self.inline_error = None;
    }

    /// Replaces the confirmation and drops the error.
    pub fn set_confirm_passphrase(&mut self, text: &str)
        ensures
            final(self)@ == (ExportView { confirm: text@, error: None, ..old(self)@ }),
    {
        self.confirm_passphrase.set(text);
        self.inline_error = None;
    }

    /// Error shown.
    pub fn inline_error(&self) -> (r: Option<&InlineError>)
        ensures
            r is Some == self@.error is Some,
            r is Some ==> *r->0 == self@.error->0,
    {
        match &self.inline_error {
            Some(err) => Some(err),
            None => None,
        }
    }

    /// Sets the error.
    pub fn set_inline_error(&mut self, err: Option<InlineError>)
        ensures
            final(self)@ == (ExportView { error: err, ..old(self)@ }),
    {
        self.inline_error = err;
    }

    /// Warning shown.
    pub fn inline_warning(&self) -> (r: Option<&InlineWarning>)
        ensures
            r is Some == self@.warning is Some,
            r is Some ==> *r->0 == self@.warning->0,
    {
        match &self.inline_warning {
            Some(warning) => Some(warning),
            None => None,
        }
    }

    /// Sets the warning.
    pub fn set_inline_warning(&mut self, warning: Option<InlineWarning>)
        ensures
            final(self)@ == (ExportView { warning, ..old(self)@ }),
    {
        self.inline_warning = warning;
    }

    /// Whether a worker runs.
    pub fn is_busy(&self) -> (r: bool)
        ensures
            r == self@.busy,
    {
        self.busy
    }

    /// Notes whether a worker runs.
    pub fn set_busy(&mut self, busy: bool)
        ensures
            final(self)@ == (ExportView { busy, ..old(self)@ }),
    {
        self.busy = busy;
    }

    fn wipe_passphrases(&mut self)
        ensures
            final(self)@ == old(self)@.without_secrets(),
    {
        self.passphrase.clear();
        self.confirm_passphrase.clear();
    }
}

/// What the destination row shows.
pub fn compose_destination_row_subtitle(state: &ExportDialogState) -> (r: String)
    ensures
        r@ == (match state@.destination {
            Some(bytes) => lossy_text(bytes),
            None => "No file selected"@,
        }),
{
    match state.destination_path() {
        Some(path) => path.display(),
        None => format_export_dialog_destination_row_placeholder().to_owned(),
    }
}

/// Whether the overwrite switch is shown.
pub fn compose_overwrite_gate_visible(state: &ExportDialogState) -> (r: bool)
    ensures
        r == state@.asks_overwrite(),
{
    state.destination_path().is_some() && state.destination_exists()
}

/// Whether the plaintext warning is shown.
pub fn compose_plaintext_warning_visible(state: &ExportDialogState) -> (r: bool)
    ensures
        r == state@.warns(),
{
    state.format().requires_plaintext_warning()
}

/// Whether the passphrase rows are shown.
pub fn compose_passphrase_rows_visible(state: &ExportDialogState) -> (r: bool)
    ensures
        r == (state@.format == ExportFormatChoice::EncryptedPaladin),
{
    state.format().requires_passphrase()
}

/// Whether the export button is sensitive.
pub fn compose_submit_button_sensitive(state: &ExportDialogState) -> (r: bool)
    ensures
        r == state@.submittable(),
{
    if state.is_busy() {
        return false;
    }
    if state.destination_path().is_none() {
        return false;
    }
    if compose_overwrite_gate_visible(state) && !state.is_overwrite_acknowledged() {
        return false;
    }
    if compose_plaintext_warning_visible(state) && !state.is_plaintext_warning_acknowledged() {
        return false;
    }
    if compose_passphrase_rows_visible(state) {
        let passphrase = state.passphrase_text();
        let confirm = state.confirm_passphrase_text();
        if passphrase.is_empty() || !same_text(passphrase, confirm) {
            return false;
        }
    }
    true
}

/// Decides what a press of the export button leads to.
pub fn compose_submit_outcome(state: &ExportDialogState, refusals: &PassphraseRefusals) -> (r:
    SubmitOutcome)
    ensures
        r@ == state@.submission(*refusals),
{
    let destination: FilePath = match state.destination_path() {
        Some(path) => path.clone(),
        None => return SubmitOutcome::NotReady,
    };
    if compose_overwrite_gate_visible(state) && !state.is_overwrite_acknowledged() {
        return SubmitOutcome::NotReady;
    }
    if compose_plaintext_warning_visible(state) && !state.is_plaintext_warning_acknowledged() {
        return SubmitOutcome::NotReady;
    }
    let format = state.format();
    let encryption_options: Option<EncryptionOptions> = if format.requires_passphrase() {
        match prepare_encrypted_export(state.passphrase_text(), state.confirm_passphrase_text()) {
            Ok(options) => Some(options),
            Err(rejection) => {
                return SubmitOutcome::Rejected(InlineError::from_rejection(rejection, refusals));
            },
        }
    } else {
        None
    };
    SubmitOutcome::Proceed(ExportSubmitPayload { destination, format, encryption_options })
}

/// Applies a message to the dialog and returns what it asks for.
pub fn apply_msg(
    state: &mut ExportDialogState,
    msg: ExportDialogMsg,
    refusals: &PassphraseRefusals,
) -> (r: Option<ExportDialogOutput>)
    ensures
        (final(state)@, request_of(r)) == export_step(old(state)@, msg, *refusals),
{
    match msg {
        ExportDialogMsg::DestinationPicked { path, exists } => {
            state.set_destination(path, exists);
            None
        },
        ExportDialogMsg::FormatChanged(format) => {
            state.set_format(format);
            None
        },
        ExportDialogMsg::OverwriteAcknowledged(acknowledged) => {
            state.set_overwrite_acknowledged(acknowledged);
            None
        },
        ExportDialogMsg::PlaintextWarningAcknowledged(acknowledged) => {
            state.set_plaintext_warning_acknowledged(acknowledged);
            None
        },
        ExportDialogMsg::PassphraseChanged(text) => {
            state.set_passphrase(text.as_str());
            None
        },
        ExportDialogMsg::ConfirmPassphraseChanged(text) => {
            state.set_confirm_passphrase(text.as_str());
            None
        },
        ExportDialogMsg::SubmitClicked => {
            if state.is_busy() {
                return None;
            }
            match compose_submit_outcome(state, refusals) {
                SubmitOutcome::Proceed(payload) => {
                    // The passphrase has moved into the payload.
                    state.wipe_passphrases();
                    state.set_inline_error(None);
                    state.set_inline_warning(None);
                    Some(ExportDialogOutput::Submit(payload))
                },
                SubmitOutcome::Rejected(inline) => {
                    state.set_inline_error(Some(inline));
                    None
                },
                SubmitOutcome::NotReady => None,
            }
        },
        ExportDialogMsg::SetBusy(busy) => {
            state.set_busy(busy);
            None
        },
        ExportDialogMsg::WorkerCompleted(outcome) => {
            state.set_busy(false);
            match outcome {
                ExportOutcome::Success => {
                    state.wipe_passphrases();
                    state.set_inline_error(None);
                    state.set_inline_warning(None);
                    Some(ExportDialogOutput::Close)
                },
                ExportOutcome::DurabilityWarning(warning) => {
                    state.set_inline_warning(Some(warning));
                    state.set_inline_error(None);
                    None
                },
                ExportOutcome::Inline(err) => {
                    state.set_inline_error(Some(err));
                    state.set_inline_warning(None);
                    None
                },
            }
        },
        ExportDialogMsg::Cancel => {
            state.wipe_passphrases();
            Some(ExportDialogOutput::Cancel)
        },
        ExportDialogMsg::Close => {
            state.wipe_passphrases();
            Some(ExportDialogOutput::Close)
        },
    }
}

/// Whether the error row is shown.
pub fn compose_inline_error_revealed(state: &ExportDialogState) -> (r: bool)
    ensures
        r == state@.error is Some,
{
    state.inline_error().is_some()
}

/// Text of the error row.
pub fn compose_inline_error_body(state: &ExportDialogState) -> (r: Option<&str>)
    ensures
        r is Some == state@.error is Some,
        r is Some ==> r->0@ == state@.error->0.rendered@,
{
    match state.inline_error() {
        Some(err) => Some(err.rendered.as_str()),
        None => None,
    }
}

/// Whether the warning row is shown.
pub fn compose_inline_warning_revealed(state: &ExportDialogState) -> (r: bool)
    ensures
        r == state@.warning is Some,
{
    state.inline_warning().is_some()
}

/// Text of the warning row.
pub fn compose_inline_warning_body(state: &ExportDialogState) -> (r: Option<&str>)
    ensures
        r is Some == state@.warning is Some,
        r is Some ==> r->0@ == state@.warning->0.rendered@,
{
    match state.inline_warning() {
        Some(warning) => Some(warning.rendered.as_str()),
        None => None,
    }
}

/// Text of the toast after an export.
pub fn format_export_success_toast(destination: &FilePath) -> (r: String)
    ensures
        r@ == "Exported to "@ + lossy_text(destination.bytes@),
{
    joined("Exported to ", destination.display().as_str())
}

/// Whether a message wipes the text of the passphrase widgets: a press of the
/// export button, a dismissal, and the end of a successful export do.
pub open spec fn wipes_widgets(msg: ExportDialogMsg) -> bool {
    ||| msg is SubmitClicked
    ||| msg is Cancel
    ||| msg is Close
    ||| msg == ExportDialogMsg::WorkerCompleted(ExportOutcome::Success)
}

/// Whether a message wipes the text of the passphrase widgets.
pub fn wipes_secret_widgets(msg: &ExportDialogMsg) -> (r: bool)
    ensures
        r == wipes_widgets(*msg),
{
    match msg {
        ExportDialogMsg::SubmitClicked => true,
        ExportDialogMsg::Cancel => true,
        ExportDialogMsg::Close => true,
        ExportDialogMsg::WorkerCompleted(ExportOutcome::Success) => true,
        _ => false,
    }
}

/// The export button is sensitive exactly when a press starts an export.
pub proof fn sensitive_button_starts_export(s: ExportView, refusals: PassphraseRefusals)
    ensures
        s.submittable() <==> export_step(s, ExportDialogMsg::SubmitClicked, refusals).1 matches Some(
            ExportRequest::Submit(_),
        ),
{
}

/// Whenever the dialog asks for anything, no passphrase is left in it or in
/// its widgets.
pub proof fn requests_leave_no_secret(
    s: ExportView,
    msg: ExportDialogMsg,
    refusals: PassphraseRefusals,
)
    requires
        export_step(s, msg, refusals).1 is Some,
    ensures
        export_step(s, msg, refusals).0.passphrase.len() == 0,
        export_step(s, msg, refusals).0.confirm.len() == 0,
        wipes_widgets(msg),
{
}

/// An export starts only from the export button, with overwriting
/// acknowledged where there is a file, with the warning acknowledged where
/// the format is plaintext, and with a passphrase where it is encrypted.
pub proof fn exports_are_acknowledged(
    s: ExportView,
    msg: ExportDialogMsg,
    refusals: PassphraseRefusals,
)
    requires
        export_step(s, msg, refusals).1 matches Some(ExportRequest::Submit(_)),
    ensures
        ({
            let job = export_step(s, msg, refusals).1->0->Submit_0;
            &&& msg is SubmitClicked
            &&& !s.busy
            &&& s.destination == Some(job.destination)
            &&& s.format == job.format
            &&& s.exists ==> s.overwrite
            &&& job.format == ExportFormatChoice::PlaintextOtpauth ==> s.acknowledged
                && job.passphrase is None
            &&& job.format == ExportFormatChoice::EncryptedPaladin ==> job.passphrase is Some
                && job.passphrase->0.len() > 0
        }),
{
}

/// A change of destination or format closes both gates and wipes the
/// passphrase, so that nothing given for one target applies to another.
pub proof fn change_of_target_closes_gates(
    s: ExportView,
    path: FilePath,
    exists: bool,
    format: ExportFormatChoice,
    refusals: PassphraseRefusals,
)
    requires
        s.destination is Some,
    ensures
        ({
            let picked = export_step(
                s,
                ExportDialogMsg::DestinationPicked { path, exists },
                refusals,
            ).0;
            denotation(s.destination->0) != path@ ==> !picked.overwrite && !picked.acknowledged
                && picked.passphrase.len() == 0 && picked.confirm.len() == 0 && picked.error is None
        }),
        ({
            let hopped = export_step(s, ExportDialogMsg::FormatChanged(format), refusals).0;
            s.format != format ==> !hopped.overwrite && !hopped.acknowledged
                && hopped.passphrase.len() == 0 && hopped.confirm.len() == 0 && hopped.error is None
        }),
{
}

/// Choosing the same target again keeps what was typed and acknowledged.
pub proof fn same_target_keeps_gates(
    s: ExportView,
    path: FilePath,
    exists: bool,
    refusals: PassphraseRefusals,
)
    requires
        s.destination is Some,
        denotation(s.destination->0) == path@,
    ensures
        export_step(s, ExportDialogMsg::DestinationPicked { path, exists }, refusals).0
            == (ExportView { destination: Some(path.bytes@), exists, ..s }),
        export_step(s, ExportDialogMsg::FormatChanged(s.format), refusals).0 == s,
{
}

/// An export carries what was chosen and typed: the destination, the format, and
/// for an encrypted bundle the passphrase exactly as it stands in both entries.
pub proof fn export_carries_the_choices(s: ExportView, refusals: PassphraseRefusals)
    requires
        export_step(s, ExportDialogMsg::SubmitClicked, refusals).1 is Some,
    ensures
        ({
            let request = export_step(s, ExportDialogMsg::SubmitClicked, refusals).1->0;
            let job = request->Submit_0;
            &&& request is Submit
            &&& s.destination == Some(job.destination)
            &&& job.format == s.format
            &&& s.format is EncryptedPaladin ==> {
                &&& job.passphrase == Some(s.passphrase)
                &&& s.passphrase == s.confirm
                &&& s.passphrase.len() > 0
            }
            &&& s.format is PlaintextOtpauth ==> job.passphrase is None
        }),
{
}

/// A press of the export button exports wherever nothing stands against it: a
/// destination, overwriting and plaintext acknowledged where they apply, and for
/// an encrypted bundle one passphrase typed twice.
pub proof fn open_gates_start_the_export(s: ExportView, refusals: PassphraseRefusals)
    ensures
        ({
            let (next, request) = export_step(s, ExportDialogMsg::SubmitClicked, refusals);
            let gates = s.destination is Some && (s.exists ==> s.overwrite) && (
            s.format is PlaintextOtpauth ==> s.acknowledged);
            &&& !s.busy && gates && s.format is PlaintextOtpauth ==> request is Some
            &&& !s.busy && gates && s.format is EncryptedPaladin && s.passphrase == s.confirm
                && s.passphrase.len() > 0 ==> request is Some
            &&& s.busy || !gates ==> request is None && next == s
            &&& !s.busy && gates && s.format is EncryptedPaladin && s.passphrase != s.confirm ==> {
                &&& request is None
                &&& next.error is Some && next.error->0.kind == ErrorKind::InvalidPassphrase
                &&& next.error->0.rendered == refusals.confirmation_mismatch
                &&& next == (ExportView { error: next.error, ..s })
            }
            &&& !s.busy && gates && s.format is EncryptedPaladin && s.passphrase == s.confirm
                && s.passphrase.len() == 0 ==> {
                &&& request is None
                &&& next.error is Some && next.error->0.kind == ErrorKind::InvalidPassphrase
                &&& next.error->0.rendered == refusals.zero_length
                &&& next == (ExportView { error: next.error, ..s })
            }
            &&& request is Some ==> {
                &&& next == (ExportView {
                    passphrase: Seq::empty(),
                    confirm: Seq::empty(),
                    error: None,
                    warning: None,
                    ..s
                })
            }
        }),
{
}

/// A typed pair is accepted exactly where both entries are the same and not
/// empty, and gives what was typed.
pub proof fn pair_gives_what_was_typed(passphrase: Seq<char>, confirm: Seq<char>)
    ensures
        passphrase == confirm && passphrase.len() > 0 ==> typed_pair(passphrase, confirm) == Ok::<
            Seq<char>,
            SubmitRejection,
        >(passphrase),
        passphrase != confirm ==> typed_pair(passphrase, confirm) == Err::<
            Seq<char>,
            SubmitRejection,
        >(SubmitRejection::ConfirmationMismatch),
        passphrase == confirm && passphrase.len() == 0 ==> typed_pair(passphrase, confirm) == Err::<
            Seq<char>,
            SubmitRejection,
        >(SubmitRejection::ZeroLength),
{
}

/// The entries and switches hold what was last put into them, and nothing else
/// changes.
pub proof fn last_entry_counts(
    s: ExportView,
    text: String,
    on: bool,
    refusals: PassphraseRefusals,
)
    ensures
        export_step(s, ExportDialogMsg::PassphraseChanged(text), refusals) == (
            ExportView { passphrase: text@, error: None, ..s },
            None::<ExportRequest>,
        ),
        export_step(s, ExportDialogMsg::ConfirmPassphraseChanged(text), refusals) == (
            ExportView { confirm: text@, error: None, ..s },
            None::<ExportRequest>,
        ),
        export_step(s, ExportDialogMsg::OverwriteAcknowledged(on), refusals) == (
            ExportView { overwrite: on, ..s },
            None::<ExportRequest>,
        ),
        export_step(s, ExportDialogMsg::PlaintextWarningAcknowledged(on), refusals) == (
            ExportView { acknowledged: on, ..s },
            None::<ExportRequest>,
        ),
        export_step(s, ExportDialogMsg::SetBusy(on), refusals) == (
            ExportView { busy: on, ..s },
            None::<ExportRequest>,
        ),
        ({
            let (left, request) = export_step(s, ExportDialogMsg::Cancel, refusals);
            request == Some(ExportRequest::Cancel) && left == (ExportView {
                passphrase: Seq::empty(),
                confirm: Seq::empty(),
                ..s
            })
        }),
        ({
            let (left, request) = export_step(s, ExportDialogMsg::Close, refusals);
            request == Some(ExportRequest::Close) && left == (ExportView {
                passphrase: Seq::empty(),
                confirm: Seq::empty(),
                ..s
            })
        }),
{
}

/// A destination or a format that is chosen is taken over. The first destination
/// closes the gates and keeps what was typed.
pub proof fn chosen_target_is_taken_over(
    s: ExportView,
    path: FilePath,
    exists: bool,
    format: ExportFormatChoice,
    refusals: PassphraseRefusals,
)
    ensures
        ({
            let (picked, request) = export_step(
                s,
                ExportDialogMsg::DestinationPicked { path, exists },
                refusals,
            );
            &&& request is None
            &&& picked.destination == Some(path.bytes@)
            &&& picked.exists == exists
            &&& picked.format == s.format && picked.busy == s.busy && picked.warning == s.warning
            &&& s.destination is None ==> !picked.overwrite && !picked.acknowledged
                && picked.passphrase == s.passphrase && picked.confirm == s.confirm && picked.error
                == s.error
        }),
        ({
            let (chosen, request) = export_step(s, ExportDialogMsg::FormatChanged(format), refusals);
            &&& request is None
            &&& chosen.format == format
            &&& chosen.destination == s.destination && chosen.exists == s.exists
            &&& chosen.busy == s.busy && chosen.warning == s.warning
            &&& s.format != format ==> !chosen.acknowledged && chosen.passphrase.len() == 0
                && chosen.confirm.len() == 0 && chosen.error is None
            &&& s.format != format && s.destination is None ==> chosen.overwrite == s.overwrite
        }),
{
}

/// A target counts as another one where the format or what the path denotes is
/// another.
pub proof fn other_targets_are_told_apart(
    before: Seq<u8>,
    after: Seq<u8>,
    format: ExportFormatChoice,
    other: ExportFormatChoice,
)
    ensures
        format != other ==> target_changed(before, format, after, other),
        denotation(before) != denotation(after) ==> target_changed(before, format, after, format),
        denotation(before) == denotation(after) ==> !target_changed(before, format, after, format),
{
}

/// The result of an export is what it shows: the dialog closes after a success;
/// an export whose durability is not certain stays with a warning, a failed one
/// with an error, in the engine's words.
pub proof fn result_of_export_is_shown(
    s: ExportView,
    result: Result<(), PaladinError>,
    refusals: PassphraseRefusals,
)
    ensures
        ({
            let (done, request) = export_step(
                s,
                ExportDialogMsg::WorkerCompleted(export_outcome(result)),
                refusals,
            );
            &&& !done.busy
            &&& done.destination == s.destination && done.format == s.format
            &&& done.exists == s.exists && done.overwrite == s.overwrite
            &&& done.acknowledged == s.acknowledged
            &&& match result {
                Ok(_) => request == Some(ExportRequest::Close) && done.error is None
                    && done.warning is None,
                Err(err) => {
                    &&& request is None
                    &&& done.passphrase == s.passphrase && done.confirm == s.confirm
                    &&& if err.kind == ErrorKind::SaveDurabilityUnconfirmed {
                        done.error is None && done.warning is Some && done.warning->0.kind
                            == err.kind && done.warning->0.rendered == err.rendered
                    } else {
                        done.warning is None && done.error is Some && done.error->0.kind == err.kind
                            && done.error->0.rendered == err.rendered
                    }
                },
            }
        }),
{
}

/// The selector lists the plaintext format first and the encrypted one second,
/// and refusals have their codes.
pub proof fn formats_and_codes(n: u32)
    ensures
        format_at(0) == Some(ExportFormatChoice::PlaintextOtpauth),
        format_at(1) == Some(ExportFormatChoice::EncryptedPaladin),
        format_at(n) is Some <==> n < 2,
        rejection_reason(SubmitRejection::ConfirmationMismatch) == "confirmation_mismatch"@,
        rejection_reason(SubmitRejection::ZeroLength) == "zero_length"@,
{
}

/// What is handed on to the worker is the export that the dialog asks for.
pub proof fn payload_is_faithful(payload: ExportSubmitPayload)
    ensures
        request_of(Some(ExportDialogOutput::Submit(payload))) matches Some(
            ExportRequest::Submit(job),
        ) && {
            &&& job.destination == payload.destination.bytes@
            &&& job.format == payload.format
            &&& job.passphrase is Some <==> payload.encryption_options is Some
            &&& job.passphrase is Some ==> job.passphrase->0 == payload.encryption_options->0@
        },
        request_of(Some(ExportDialogOutput::Cancel)) == Some(ExportRequest::Cancel),
        request_of(Some(ExportDialogOutput::Close)) == Some(ExportRequest::Close),
        request_of(None) is None,
{
}

/// The export button is on exactly where no worker runs, a destination is chosen,
/// an existing file may be overwritten, plaintext is acknowledged, and for an
/// encrypted bundle one passphrase was typed twice.
pub proof fn button_follows_the_gates(s: ExportView)
    ensures
        s.asks_overwrite() <==> s.destination is Some && s.exists,
        s.warns() <==> s.format is PlaintextOtpauth,
        s.gates_open() <==> s.destination is Some && (s.exists ==> s.overwrite) && (
        s.format is PlaintextOtpauth ==> s.acknowledged),
        s.submittable() <==> {
            &&& !s.busy
            &&& s.destination is Some
            &&& s.exists ==> s.overwrite
            &&& s.format is PlaintextOtpauth ==> s.acknowledged
            &&& s.format is EncryptedPaladin ==> s.passphrase == s.confirm && s.passphrase.len() > 0
        },
{
}

/// What a submission amounts to: the job that a press starts, a refused pair, or
/// nothing while a gate is closed.
pub proof fn submission_is_what_a_press_starts(s: ExportView, refusals: PassphraseRefusals)
    ensures
        s.submission(refusals) is NotReady <==> !(s.destination is Some && (s.exists
            ==> s.overwrite) && (s.format is PlaintextOtpauth ==> s.acknowledged)),
        !s.busy ==> match s.submission(refusals) {
            Submission::Proceed(job) => export_step(
                s,
                ExportDialogMsg::SubmitClicked,
                refusals,
            ).1 == Some(ExportRequest::Submit(job)),
            Submission::Rejected(err) => export_step(
                s,
                ExportDialogMsg::SubmitClicked,
                refusals,
            ).0.error == Some(err),
            Submission::NotReady => export_step(s, ExportDialogMsg::SubmitClicked, refusals).0 == s,
        },
        s.busy ==> s.submission(refusals) == (ExportView { busy: false, ..s }).submission(refusals),
{
}

/// What a submission amounts to is told as it is.
pub proof fn submit_outcome_is_faithful(outcome: SubmitOutcome)
    ensures
        outcome is NotReady ==> outcome@ is NotReady,
        outcome matches SubmitOutcome::Proceed(payload) ==> request_of(
            Some(ExportDialogOutput::Submit(payload)),
        ) == Some(ExportRequest::Submit(outcome@->Proceed_0)) && outcome@ is Proceed,
        outcome matches SubmitOutcome::Rejected(err) ==> outcome@ == Submission::Rejected(err),
{
}

/// A dialog that was just opened has no destination, offers plaintext, and nothing
/// in it is acknowledged or typed. The widgets are wiped on a press of the export
/// button, on a dismissal and on a success, and at no other time.
pub proof fn fresh_dialog_has_nothing(msg: ExportDialogMsg)
    ensures
        ({
            let s = ExportView::fresh();
            &&& s.destination is None && !s.exists
            &&& s.format == ExportFormatChoice::PlaintextOtpauth
            &&& !s.overwrite && !s.acknowledged && !s.busy
            &&& s.passphrase.len() == 0 && s.confirm.len() == 0
            &&& s.error is None && s.warning is None
        }),
        wipes_widgets(msg) <==> match msg {
            ExportDialogMsg::SubmitClicked => true,
            ExportDialogMsg::Cancel => true,
            ExportDialogMsg::Close => true,
            ExportDialogMsg::WorkerCompleted(outcome) => outcome is Success,
            _ => false,
        },
{
}

/// Dropping the secrets drops both entries and nothing else, and a refused pair is
/// refused in the engine's words for it.
pub proof fn secrets_go_and_refusals_speak(s: ExportView, refusals: PassphraseRefusals)
    ensures
        s.without_secrets() == (ExportView { passphrase: Seq::empty(), confirm: Seq::empty(), ..s }),
        rejection_error(SubmitRejection::ConfirmationMismatch, refusals).rendered
            == refusals.confirmation_mismatch,
        rejection_error(SubmitRejection::ZeroLength, refusals).rendered == refusals.zero_length,
        rejection_error(SubmitRejection::ConfirmationMismatch, refusals).kind
            == ErrorKind::InvalidPassphrase,
        rejection_error(SubmitRejection::ZeroLength, refusals).kind == ErrorKind::InvalidPassphrase,
{
}

} // verus!

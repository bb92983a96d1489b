//! The dialog that creates a vault: plaintext or encrypted, with a
//! confirmation before an existing vault is replaced.

use crate::inline::PassphraseRefusals;
use crate::paths::copy_optional_path;
use crate::paths::is_parent;
use crate::paths::lossy_text;
use crate::paths::optional_bytes;
use crate::paths::FilePath;
use crate::secret_fields::ClearReason;
use crate::secret_fields::InitSecretState;
use crate::text::joined;
use crate::text::same_text;
use crate::vault::CreateError;
use crate::vault::EncryptionOptions;
use crate::vault::ErrorKind;
use crate::vault::InitPrecheck;
use crate::vault::VaultInit;
use crate::vault::VaultInitView;
use crate::wiping::Passphrase;
use vstd::prelude::*;
use vstd::string::StringExecFns;

verus! {

/// Kind of vault that the entries select.
#[derive(Clone, Copy, Debug, PartialEq, Eq, Structural)]
pub enum InitMode {
    /// Both entries are empty.
    Plaintext,
    /// An entry holds text.
    Encrypted,
}

/// Kind of vault that the entries select.
pub open spec fn selected_mode(passphrase: Seq<char>, confirm: Seq<char>) -> InitMode {
    if passphrase.len() == 0 && confirm.len() == 0 {
        InitMode::Plaintext
    } else {
        InitMode::Encrypted
    }
}

/// Kind of vault that the entries select.
pub fn classify_mode(passphrase: &str, confirm: &str) -> (r: InitMode)
    ensures
        r == selected_mode(passphrase@, confirm@),
{
    if passphrase.is_empty() && confirm.is_empty() {
        InitMode::Plaintext
    } else {
        InitMode::Encrypted
    }
}

/// Why a submission is refused before the vault is touched.
#[derive(Clone, Copy, Debug, PartialEq, Eq, Structural)]
pub enum SubmitRejection {
    /// The warning about plaintext storage is not acknowledged.
    PlaintextWarningRequired,
    /// One entry is empty or the two differ.
    ConfirmationMismatch,
}

impl SubmitRejection {
    /// The error kind, for a refusal that corresponds to one.
    pub fn error_kind(&self) -> (r: Option<ErrorKind>)
        ensures
            r == (match self {
                SubmitRejection::ConfirmationMismatch => Some(ErrorKind::InvalidPassphrase),
                SubmitRejection::PlaintextWarningRequired => None,
            }),
    {
        match self {
            SubmitRejection::ConfirmationMismatch => Some(ErrorKind::InvalidPassphrase),
            SubmitRejection::PlaintextWarningRequired => None,
        }
    }

    /// The reason code, for a refusal that corresponds to an error.
    pub fn reason(&self) -> (r: Option<&'static str>)
        ensures
            match self {
                SubmitRejection::ConfirmationMismatch => r is Some && r->0@
                    == "confirmation_mismatch"@,
                SubmitRejection::PlaintextWarningRequired => r is None,
            },
    {
        match self {
            SubmitRejection::ConfirmationMismatch => Some("confirmation_mismatch"),
            SubmitRejection::PlaintextWarningRequired => None,
        }
    }
}

/// The parameters that the entries and the acknowledgement amount to, or why
/// they are refused.
pub open spec fn prepared(passphrase: Seq<char>, confirm: Seq<char>, acknowledged: bool) -> Result<
    VaultInitView,
    SubmitRejection,
> {
    match selected_mode(passphrase, confirm) {
        InitMode::Plaintext => if acknowledged {
            Ok(VaultInitView::Plaintext)
        } else {
            Err(SubmitRejection::PlaintextWarningRequired)
        },
        InitMode::Encrypted => if passphrase == confirm {
            Ok(VaultInitView::Encrypted(passphrase))
        } else {
            Err(SubmitRejection::ConfirmationMismatch)
        },
    }
}

/// Builds the parameters of a vault from the entries and the acknowledgement.
pub fn prepare_vault_init(
    passphrase: &str,
    confirm: &str,
    plaintext_warning_acknowledged: bool,
) -> (r: Result<VaultInit, SubmitRejection>)
    ensures
        match r {
            Ok(init) => prepared(passphrase@, confirm@, plaintext_warning_acknowledged) == Ok::<
                VaultInitView,
                SubmitRejection,
            >(init@),
            Err(rejection) => prepared(passphrase@, confirm@, plaintext_warning_acknowledged)
                == Err::<VaultInitView, SubmitRejection>(rejection),
        },
{
    match classify_mode(passphrase, confirm) {
        InitMode::Plaintext => {
            if !plaintext_warning_acknowledged {
                return Err(SubmitRejection::PlaintextWarningRequired);
            }
            Ok(VaultInit::Plaintext)
        },
        InitMode::Encrypted => {
            if passphrase.is_empty() || confirm.is_empty() || !same_text(passphrase, confirm) {
                return Err(SubmitRejection::ConfirmationMismatch);
            }
            match EncryptionOptions::new(Passphrase::new(passphrase)) {
                Some(options) => Ok(VaultInit::Encrypted(options)),
                None => Err(SubmitRejection::ConfirmationMismatch),
            }
        },
    }
}

/// An error shown in the dialog.
#[derive(Clone, Debug)]
pub struct InlineError {
    /// Stable discriminator.
    pub kind: ErrorKind,
    /// Text shown.
    pub rendered: String,
    /// Where the replaced vault was kept, after a save that did not commit.
    pub backup_path: Option<FilePath>,
}

/// The text of an error: what the engine says about permissions where the
/// error is about them, the error's own text otherwise.
pub open spec fn shown_text(err: CreateError) -> String {
    match err.permissions_text {
        Some(text) => text,
        None => err.error.rendered,
    }
}

/// The text of a failed creation: what the engine says about the directory
/// where the error is about that, [`shown_text`] otherwise.
pub open spec fn shown_create_text(err: CreateError) -> String {
    match err.create_dir_text {
        Some(text) => text,
        None => shown_text(err),
    }
}

/// The backup path that goes with an error: only a save that did not commit
/// has one.
pub open spec fn kept_backup(err: CreateError) -> Option<FilePath> {
    if err.error.kind == ErrorKind::SaveNotCommitted {
        err.backup_path
    } else {
        None
    }
}

fn render_inline(err: &CreateError) -> (r: String)
    ensures
        r == shown_text(*err),
{
    match &err.permissions_text {
        Some(text) => text.clone(),
        None => err.error.rendered.clone(),
    }
}

fn render_create_inline(err: &CreateError) -> (r: String)
    ensures
        r == shown_create_text(*err),
{
    match &err.create_dir_text {
        Some(text) => text.clone(),
        None => render_inline(err),
    }
}

fn backup_path_of(err: &CreateError) -> (r: Option<FilePath>)
    ensures
        optional_bytes(r) == optional_bytes(kept_backup(*err)),
{
    match err.error.kind {
        ErrorKind::SaveNotCommitted => copy_optional_path(&err.backup_path),
        _ => None,
    }
}

impl InlineError {
    /// The inline form of an error.
    pub fn from_error(err: &CreateError) -> (r: Self)
        ensures
            r.kind == err.error.kind,
            r.rendered == shown_text(*err),
            optional_bytes(r.backup_path) == optional_bytes(kept_backup(*err)),
    {
        InlineError {
            kind: err.error.kind,
            rendered: render_inline(err),
            backup_path: backup_path_of(err),
        }
    }

    /// The inline form of a failed creation.
    pub fn from_create_error(err: &CreateError) -> (r: Self)
        ensures
            r.kind == err.error.kind,
            r.rendered == shown_create_text(*err),
            optional_bytes(r.backup_path) == optional_bytes(kept_backup(*err)),
    {
        InlineError {
            kind: err.error.kind,
            rendered: render_create_inline(err),
            backup_path: backup_path_of(err),
        }
    }

    /// The inline form of a refusal; a missing acknowledgement has none.
    pub fn from_rejection(rejection: SubmitRejection, refusals: &PassphraseRefusals) -> (r: Option<
        Self,
    >)
        ensures
            r == rejection_error(rejection, *refusals),
    {
        match rejection {
            SubmitRejection::ConfirmationMismatch => Some(
                InlineError {
                    kind: ErrorKind::InvalidPassphrase,
                    rendered: refusals.confirmation_mismatch.clone(),
                    backup_path: None,
                },
            ),
            SubmitRejection::PlaintextWarningRequired => None,
        }
    }
}

/// The inline form of a refusal; a missing acknowledgement has none.
pub open spec fn rejection_error(
    rejection: SubmitRejection,
    refusals: PassphraseRefusals,
) -> Option<InlineError> {
    match rejection {
        SubmitRejection::ConfirmationMismatch => Some(
            InlineError {
                kind: ErrorKind::InvalidPassphrase,
                rendered: refusals.confirmation_mismatch,
                backup_path: None,
            },
        ),
        SubmitRejection::PlaintextWarningRequired => None,
    }
}

/// What to do after a look at the vault file.
#[derive(Debug)]
pub enum PrecheckOutcome {
    /// Create the vault.
    Proceed,
    /// Ask before an existing vault is replaced.
    DestructiveGate,
    /// Show the error.
    InlineError(InlineError),
}

/// Decides what to do after a look at the vault file.
pub fn classify_precheck(probe: &InitPrecheck) -> (r: PrecheckOutcome)
    ensures
        match *probe {
            InitPrecheck::Clear => r is Proceed,
            InitPrecheck::Existing => r is DestructiveGate,
            InitPrecheck::Propagate(err) => r matches PrecheckOutcome::InlineError(e) && e.kind
                == err.error.kind && e.rendered == shown_text(err) && optional_bytes(e.backup_path)
                == optional_bytes(kept_backup(err)),
        },
{
    match probe {
        InitPrecheck::Clear => PrecheckOutcome::Proceed,
        InitPrecheck::Existing => PrecheckOutcome::DestructiveGate,
        InitPrecheck::Propagate(err) => PrecheckOutcome::InlineError(InlineError::from_error(err)),
    }
}

/// What to do after a failed creation.
#[derive(Debug)]
pub enum CreateOutcome {
    /// A vault came up in between: ask before it is replaced.
    DestructiveGate,
    /// Show the error.
    InlineError(InlineError),
}

/// Decides what to do after a failed creation.
pub fn classify_create_error(err: &CreateError) -> (r: CreateOutcome)
    ensures
        err.error.kind == ErrorKind::VaultExists ==> r is DestructiveGate,
        err.error.kind != ErrorKind::VaultExists ==> (r matches CreateOutcome::InlineError(e)
            && e.kind == err.error.kind && e.rendered == shown_create_text(*err) && optional_bytes(
            e.backup_path,
        ) == optional_bytes(kept_backup(*err))),
{
    match err.error.kind {
        ErrorKind::VaultExists => CreateOutcome::DestructiveGate,
        _ => CreateOutcome::InlineError(InlineError::from_create_error(err)),
    }
}

/// The inline form of a failed replacement. No question is asked again.
pub fn classify_create_force_error(err: &CreateError) -> (r: InlineError)
    ensures
        r.kind == err.error.kind,
        r.rendered == shown_create_text(*err),
        optional_bytes(r.backup_path) == optional_bytes(kept_backup(*err)),
{
    InlineError::from_create_error(err)
}

/// Whether a worker creates a vault or replaces one.
#[derive(Clone, Copy, Debug, PartialEq, Eq, Structural)]
pub enum InitWorkerMode {
    /// Create; an existing vault is an error.
    Create,
    /// Replace an existing vault.
    CreateForce,
}

/// What a worker is to do.
#[derive(Debug)]
pub struct InitWorkerInput {
    /// Parameters of the vault.
    pub init: VaultInit,
    /// Where the vault goes.
    pub vault_path: FilePath,
    /// Create or replace.
    pub mode: InitWorkerMode,
}

/// What a worker's result means for the dialog. `V` is the opened vault.
#[derive(Debug)]
pub enum InitWorkerEffect<V> {
    /// The vault is open.
    Success(V),
    /// A vault came up in between: ask before it is replaced.
    DestructiveGate,
    /// Show the error.
    InlineError(InlineError),
}

/// Whether `effect` is what a worker's result means for the dialog: only a
/// first creation leads to the question, a replacement never does.
pub open spec fn init_effect<V>(
    mode: InitWorkerMode,
    result: Result<V, CreateError>,
    effect: InitWorkerEffect<V>,
) -> bool {
    match result {
        Ok(vault) => effect == InitWorkerEffect::Success(vault),
        Err(err) => if mode == InitWorkerMode::Create && err.error.kind == ErrorKind::VaultExists {
            effect is DestructiveGate
        } else {
            effect matches InitWorkerEffect::InlineError(e) && e.kind == err.error.kind
                && e.rendered == shown_create_text(err) && optional_bytes(e.backup_path)
                == optional_bytes(kept_backup(err))
        },
    }
}

/// Decides what a worker's result means for the dialog.
pub fn init_worker_effect<V>(mode: InitWorkerMode, result: Result<V, CreateError>) -> (r:
    InitWorkerEffect<V>)
    ensures
        init_effect(mode, result, r),
{
    match result {
        Ok(vault) => InitWorkerEffect::Success(vault),
        Err(err) => match mode {
            InitWorkerMode::Create => match classify_create_error(&err) {
                CreateOutcome::DestructiveGate => InitWorkerEffect::DestructiveGate,
                CreateOutcome::InlineError(inline) => InitWorkerEffect::InlineError(inline),
            },
            InitWorkerMode::CreateForce => {
                InitWorkerEffect::InlineError(classify_create_force_error(&err))
            },
        },
    }
}

/// What the worker hands back. `V` is the opened vault.
#[derive(Debug)]
pub struct InitWorkerCompletion<V> {
    /// What the result means for the dialog.
    pub effect: InitWorkerEffect<V>,
}

/// Whether `result` comes of a creation and, where that went well, of a save
/// of what was created: the vault where both went well, else the first error.
pub open spec fn created_and_saved<
    V,
    C: FnOnce(&FilePath, VaultInit) -> Result<V, CreateError>,
    S: FnOnce(&V) -> Result<(), CreateError>,
>(create: C, save: S, path: &FilePath, init: VaultInit, result: Result<V, CreateError>) -> bool {
    exists|created: Result<V, CreateError>|
        {
            &&& #[trigger] call_ensures(create, (path, init), created)
            &&& match created {
                Ok(vault) => exists|saved: Result<(), CreateError>|
                    {
                        &&& #[trigger] call_ensures(save, (&vault,), saved)
                        &&& match saved {
                            Ok(_) => result == Ok::<V, CreateError>(vault),
                            Err(err) => result == Err::<V, CreateError>(err),
                        }
                    },
                Err(err) => result == Err::<V, CreateError>(err),
            }
        }
}

/// Creates a vault and saves it before it is handed back, so that it is there
/// after a restart even where no account was ever added.
pub fn create_and_save<
    V,
    C: FnOnce(&FilePath, VaultInit) -> Result<V, CreateError>,
    S: FnOnce(&V) -> Result<(), CreateError>,
>(path: &FilePath, init: VaultInit, create: C, save: S) -> (r: Result<V, CreateError>)
    requires
        call_requires(create, (path, init)),
        forall|vault: V|
            call_ensures(create, (path, init), Ok(vault)) ==> #[trigger] call_requires(
                save,
                (&vault,),
            ),
    ensures
        created_and_saved(create, save, path, init, r),
{
    match create(path, init) {
        Ok(vault) => match save(&vault) {
            Ok(_) => Ok(vault),
            Err(err) => Err(err),
        },
        Err(err) => Err(err),
    }
}

/// Creates and saves a vault, or replaces one. `create` fails where there is a
/// vault; `create_force` replaces, and has saved when it returns. Only what
/// the mode asks for is called.
pub fn run_init_worker<
    V,
    C: FnOnce(&FilePath, VaultInit) -> Result<V, CreateError>,
    S: FnOnce(&V) -> Result<(), CreateError>,
    F: FnOnce(&FilePath, VaultInit) -> Result<V, CreateError>,
>(input: InitWorkerInput, create: C, save: S, create_force: F) -> (r: InitWorkerCompletion<V>)
    requires
        input.mode == InitWorkerMode::Create ==> call_requires(
            create,
            (&input.vault_path, input.init),
        ),
        input.mode == InitWorkerMode::Create ==> forall|vault: V|
            call_ensures(create, (&input.vault_path, input.init), Ok(vault))
                ==> #[trigger] call_requires(save, (&vault,)),
        input.mode == InitWorkerMode::CreateForce ==> call_requires(
            create_force,
            (&input.vault_path, input.init),
        ),
    ensures
        exists|result: Result<V, CreateError>|
            {
                &&& match input.mode {
                    InitWorkerMode::Create => created_and_saved(
                        create,
                        save,
                        &input.vault_path,
                        input.init,
                        result,
                    ),
                    InitWorkerMode::CreateForce => call_ensures(
                        create_force,
                        (&input.vault_path, input.init),
                        result,
                    ),
                }
                &&& #[trigger] init_effect(input.mode, result, r.effect)
            },
{
    let mode = input.mode;
    let result: Result<V, CreateError> = match mode {
        InitWorkerMode::Create => create_and_save(&input.vault_path, input.init, create, save),
        InitWorkerMode::CreateForce => create_force(&input.vault_path, input.init),
    };
    let ghost given = result;
    let effect = init_worker_effect(mode, result);
    assert(init_effect(mode, given, effect));
    InitWorkerCompletion { effect }
}

/// The directory that the creation of a vault makes where it is not there: the
/// parent of the vault's path, or `.` for a path without one.
pub fn attempted_directory(path: &FilePath) -> (r: FilePath)
    ensures
        path@.1.len() > 0 ==> is_parent(path.bytes@, r.bytes@),
        path@.1.len() == 0 ==> r.bytes@ == seq![0x2eu8],
{
    match path.parent() {
        Some(parent) => parent,
        None => {
            let bytes: Vec<u8> = vec![0x2eu8];
            assert(bytes@ =~= seq![0x2eu8]);
            FilePath { bytes }
        },
    }
}

/// Prefix of the line that reports the mounted dialog.
pub const INIT_DIALOG_MARKER_PREFIX: &'static str = "paladin-gtk: init_dialog_path=";

/// The line that reports the mounted dialog.
pub fn format_init_dialog_marker(path: &FilePath) -> (r: String)
    ensures
        r@ == "paladin-gtk: init_dialog_path="@ + lossy_text(path.bytes@),
{
    joined(INIT_DIALOG_MARKER_PREFIX, path.display().as_str())
}

/// The description of the dialog: where no vault was found, then the warning
/// about plaintext storage.
pub fn format_init_dialog_description(path: &FilePath, warning: &str) -> (r: String)
    ensures
        r@ == "No vault found at "@ + lossy_text(path.bytes@) + ".\n\n"@ + warning@,
{
    let mut text = "No vault found at ".to_owned();
    text.append(path.display().as_str());
    text.append(".\n\n");
    text.append(warning);
    text
}

/// Icon of the dialog.
pub fn format_init_dialog_icon_name() -> (r: &'static str)
    ensures
        r@ == "document-new-symbolic"@,
{
    "document-new-symbolic"
}

/// Title of the dialog.
pub fn format_init_dialog_title() -> (r: &'static str)
    ensures
        r@ == "Create a new vault"@,
{
    "Create a new vault"
}

/// Caption of the submit button.
pub fn format_init_dialog_create_label() -> (r: &'static str)
    ensures
        r@ == "Create vault"@,
{
    "Create vault"
}

/// Caption of the passphrase entry.
pub fn format_init_dialog_passphrase_title() -> (r: &'static str)
    ensures
        r@ == "Passphrase"@,
{
    "Passphrase"
}

/// Caption of the entry that confirms the passphrase.
pub fn format_init_dialog_confirm_passphrase_title() -> (r: &'static str)
    ensures
        r@ == "Confirm passphrase"@,
{
    "Confirm passphrase"
}

/// Caption of the acknowledgement.
pub fn format_init_dialog_plaintext_warning_label() -> (r: &'static str)
    ensures
        r@ == "I accept this risk"@,
{
    "I accept this risk"
}

/// Heading of the question before a vault is replaced.
pub fn format_init_dialog_force_heading() -> (r: &'static str)
    ensures
        r@ == "Replace existing vault?"@,
{
    "Replace existing vault?"
}

/// Caption of the button that replaces the vault.
pub fn format_init_dialog_force_confirm_label() -> (r: &'static str)
    ensures
        r@ == "Replace"@,
{
    "Replace"
}

/// Caption of the button that keeps the vault.
pub fn format_init_dialog_force_cancel_label() -> (r: &'static str)
    ensures
        r@ == "Cancel"@,
{
    "Cancel"
}

/// What the dialog is opened with.
#[derive(Clone, Debug)]
pub struct InitDialogInit {
    /// Where the vault goes.
    pub vault_path: FilePath,
}

/// State of the dialog in mathematical terms.
pub struct InitView {
    /// Text of the passphrase entry.
    pub passphrase: Seq<char>,
    /// Text of the confirming entry.
    pub confirm: Seq<char>,
    /// Parameters that wait for the confirmation.
    pub pending: Option<VaultInitView>,
    /// Whether the warning is acknowledged.
    pub acknowledged: bool,
    /// Error shown.
    pub error: Option<InlineError>,
}

/// State of the dialog.
pub struct InitDialogState {
    secret: InitSecretState,
    plaintext_warning_acknowledged: bool,
    inline_error: Option<InlineError>,
}

/// Optional parameters in mathematical terms.
pub open spec fn optional_init(init: Option<VaultInit>) -> Option<VaultInitView> {
    match init {
        Some(init) => Some(init@),
        None => None,
    }
}

impl View for InitDialogState {
    type V = InitView;

    closed spec fn view(&self) -> InitView {
        InitView {
            passphrase: self.secret.passphrase@,
            confirm: self.secret.confirm@,
            pending: optional_init(self.secret.pending),
            acknowledged: self.plaintext_warning_acknowledged,
            error: self.inline_error,
        }
    }
}

impl InitView {
    /// An untouched dialog.
    pub open spec fn fresh() -> Self {
        InitView {
            passphrase: Seq::empty(),
            confirm: Seq::empty(),
            pending: None,
            acknowledged: false,
            error: None,
        }
    }

    /// What the entries and the acknowledgement amount to.
    pub open spec fn attempt(self) -> Result<VaultInitView, SubmitRejection> {
        prepared(self.passphrase, self.confirm, self.acknowledged)
    }

    /// Without secrets, staged parameters and error.
    pub open spec fn wiped(self) -> Self {
        InitView {
            passphrase: Seq::empty(),
            confirm: Seq::empty(),
            pending: None,
            error: None,
            ..self
        }
    }
}

impl Default for InitDialogState {
    fn default() -> (r: Self)
        ensures
            r@ == InitView::fresh(),
    {
        InitDialogState {
            secret: InitSecretState::new(),
            plaintext_warning_acknowledged: false,
            inline_error: None,
        }
    }
}

impl InitDialogState {
    /// An untouched dialog.
    pub fn new() -> (r: Self)
        ensures
            r@ == InitView::fresh(),
    {
        InitDialogState::default()
    }

    /// Replaces the passphrase and drops the error.
    pub fn set_passphrase(&mut self, text: &str)
        ensures
            final(self)@ == (InitView { passphrase: text@, error: None, ..old(self)@ }),
    {
        self.secret.passphrase.set(text);
        self.inline_error = None;
    }

    /// Replaces the confirmation and drops the error.
    pub fn set_confirm(&mut self, text: &str)
        ensures
            final(self)@ == (InitView { confirm: text@, error: None, ..old(self)@ }),
    {
        self.secret.confirm.set(text);
        self.inline_error = None;
    }

    /// Sets the acknowledgement and drops the error.
    pub fn set_plaintext_warning(&mut self, acknowledged: bool)
        ensures
            final(self)@ == (InitView { acknowledged, error: None, ..old(self)@ }),
    {
        self.plaintext_warning_acknowledged = acknowledged;
        self.inline_error = None;
    }

    /// Text of the passphrase entry.
    pub fn passphrase_text(&self) -> (r: &str)
        ensures
            r@ == self@.passphrase,
    {
        self.secret.passphrase.text()
    }

    /// Text of the confirming entry.
    pub fn confirm_text(&self) -> (r: &str)
        ensures
            r@ == self@.confirm,
    {
        self.secret.confirm.text()
    }

    /// Whether the warning is acknowledged.
    pub fn plaintext_warning_acknowledged(&self) -> (r: bool)
        ensures
            r == self@.acknowledged,
    {
        self.plaintext_warning_acknowledged
    }

    /// Error shown.
    pub fn inline_error(&self) -> (r: Option<&InlineError>)
        ensures
            r is Some == self@.error is Some,
            r is Some ==> *r->0 == self@.error->0,
    {
        match &self.inline_error {
            Some(err) => Some(err),
            None => None,
        }
    }

    /// Sets the error.
    pub fn set_inline_error(&mut self, err: Option<InlineError>)
        ensures
            final(self)@ == (InitView { error: err, ..old(self)@ }),
    {
        self.inline_error = err;
    }

    /// Whether parameters wait for the confirmation.
    pub fn has_pending_force(&self) -> (r: bool)
        ensures
            r == self@.pending is Some,
    {
        self.secret.pending.is_some()
    }

    /// Kind of vault that the entries select.
    pub fn mode(&self) -> (r: InitMode)
        ensures
            r == selected_mode(self@.passphrase, self@.confirm),
    {
        classify_mode(self.passphrase_text(), self.confirm_text())
    }

    /// Whether the submit button is sensitive: exactly when a submission
    /// would succeed.
    pub fn submit_button_sensitive(&self) -> (r: bool)
        ensures
            r == self@.attempt() is Ok,
    {
        match self.mode() {
            InitMode::Plaintext => self.plaintext_warning_acknowledged,
            InitMode::Encrypted => {
                !self.passphrase_text().is_empty() && !self.confirm_text().is_empty() && same_text(
                    self.passphrase_text(),
                    self.confirm_text(),
                )
            },
        }
    }

    /// Submits the entries. They are kept, so that the parameters can be
    /// built again should a vault have to be replaced.
    pub fn submit(&mut self, refusals: &PassphraseRefusals) -> (r: Result<
        VaultInit,
        SubmitRejection,
    >)
        ensures
            match r {
                Ok(init) => old(self)@.attempt() == Ok::<VaultInitView, SubmitRejection>(init@)
                    && final(self)@ == (InitView { error: None, ..old(self)@ }),
                Err(rejection) => old(self)@.attempt() == Err::<VaultInitView, SubmitRejection>(
                    rejection,
                ) && final(self)@ == (InitView {
                    error: rejection_error(rejection, *refusals),
                    ..old(self)@
                }),
            },
    {
        let attempt = prepare_vault_init(
            self.passphrase_text(),
            self.confirm_text(),
            self.plaintext_warning_acknowledged,
        );
        match attempt {
            Ok(init) => {
                self.inline_error = None;
                Ok(init)
            },
            Err(rejection) => {
                self.inline_error = InlineError::from_rejection(rejection, refusals);
                Err(rejection)
            },
        }
    }

    /// Builds the parameters again and stages them; returns what was staged
    /// before. A refusal changes nothing.
    pub fn stage_pending_for_force(&mut self) -> (r: Result<Option<VaultInit>, SubmitRejection>)
        ensures
            match old(self)@.attempt() {
                Ok(init) => r is Ok && optional_init(r->Ok_0) == old(self)@.pending && final(self)@
                    == (InitView { pending: Some(init), ..old(self)@ }),
                Err(rejection) => r == Err::<Option<VaultInit>, SubmitRejection>(rejection)
                    && final(self)@ == old(self)@,
            },
    {
        let attempt = prepare_vault_init(
            self.passphrase_text(),
            self.confirm_text(),
            self.plaintext_warning_acknowledged,
        );
        match attempt {
            Ok(init) => Ok(self.secret.replace_pending(init)),
            Err(rejection) => Err(rejection),
        }
    }

    /// Stages parameters; returns what was staged before.
    pub fn stage_pending(&mut self, init: VaultInit) -> (r: Option<VaultInit>)
        ensures
            optional_init(r) == old(self)@.pending,
            final(self)@ == (InitView { pending: Some(init@), ..old(self)@ }),
    {
        self.secret.replace_pending(init)
    }

    /// Takes what is staged and wipes the entries; does nothing where nothing
    /// is staged.
    pub fn consume_pending(&mut self) -> (r: Option<VaultInit>)
        ensures
            optional_init(r) == old(self)@.pending,
            final(self)@ == (if old(self)@.pending is Some {
                InitView {
                    passphrase: Seq::empty(),
                    confirm: Seq::empty(),
                    pending: None,
                    ..old(self)@
                }
            } else {
                old(self)@
            }),
    {
        self.secret.consume_pending()
    }

    /// Wipes the entries, what is staged and the error; returns what was
    /// staged.
    pub fn clear_for(&mut self, reason: ClearReason) -> (r: Option<VaultInit>)
        ensures
            optional_init(r) == old(self)@.pending,
            final(self)@ == old(self)@.wiped(),
    {
        let prior = self.secret.clear_for(reason);
        self.inline_error = None;
        prior
    }
}

/// What happens in the dialog.
#[derive(Debug)]
pub enum InitDialogMsg {
    /// The passphrase was edited.
    PassphraseChanged(String),
    /// The confirmation was edited.
    ConfirmChanged(String),
    /// The acknowledgement was toggled.
    WarningToggled(bool),
    /// The submit button was pressed.
    SubmitClicked,
    /// The replacement was confirmed.
    ForceConfirmClicked,
    /// The replacement was declined.
    ForceCancelClicked,
    /// The worker failed.
    WorkerCompletedInline(InlineError),
    /// The worker found a vault.
    WorkerCompletedDestructive,
}

/// What the dialog asks for.
#[derive(Debug)]
pub enum InitDialogOutput {
    /// Create a vault.
    SubmitCreate(VaultInit),
    /// Replace a vault.
    SubmitForceCreate(VaultInit),
}

/// What the dialog asks for, in mathematical terms.
pub enum InitRequest {
    /// Create a vault.
    Create(VaultInitView),
    /// Replace a vault.
    ForceCreate(VaultInitView),
}

/// What the dialog asks for, in mathematical terms.
pub open spec fn request_of(output: Option<InitDialogOutput>) -> Option<InitRequest> {
    match output {
        Some(InitDialogOutput::SubmitCreate(init)) => Some(InitRequest::Create(init@)),
        Some(InitDialogOutput::SubmitForceCreate(init)) => Some(InitRequest::ForceCreate(init@)),
        None => None,
    }
}

/// The dialog after a message, and what it asks for.
pub open spec fn init_step(s: InitView, msg: InitDialogMsg, refusals: PassphraseRefusals) -> (
    InitView,
    Option<InitRequest>,
) {
    match msg {
        InitDialogMsg::PassphraseChanged(text) => (
            InitView { passphrase: text@, error: None, ..s },
            None,
        ),
        InitDialogMsg::ConfirmChanged(text) => (InitView { confirm: text@, error: None, ..s }, None),
        InitDialogMsg::WarningToggled(value) => (
            InitView { acknowledged: value, error: None, ..s },
            None,
        ),
        InitDialogMsg::SubmitClicked => match s.attempt() {
            Ok(init) => (InitView { error: None, ..s }, Some(InitRequest::Create(init))),
            Err(rejection) => (
                InitView { error: rejection_error(rejection, refusals), ..s },
                None,
            ),
        },
        InitDialogMsg::ForceConfirmClicked => match s.pending {
            Some(init) => (
                InitView { passphrase: Seq::empty(), confirm: Seq::empty(), pending: None, ..s },
                Some(InitRequest::ForceCreate(init)),
            ),
            None => (s, None),
        },
        InitDialogMsg::ForceCancelClicked => (s.wiped(), None),
        InitDialogMsg::WorkerCompletedInline(inline) => (
            InitView { error: Some(inline), ..s },
            None,
        ),
        InitDialogMsg::WorkerCompletedDestructive => match s.attempt() {
            Ok(init) => (InitView { pending: Some(init), ..s }, None),
            Err(_) => (s, None),
        },
    }
}

/// Applies a message to the dialog and returns what it asks for.
pub fn apply_msg(
    state: &mut InitDialogState,
    msg: InitDialogMsg,
    refusals: &PassphraseRefusals,
) -> (r: Option<InitDialogOutput>)
    ensures
        (final(state)@, request_of(r)) == init_step(old(state)@, msg, *refusals),
{
    match msg {
        InitDialogMsg::PassphraseChanged(text) => {
            state.set_passphrase(text.as_str());
            None
        },
        InitDialogMsg::ConfirmChanged(text) => {
            state.set_confirm(text.as_str());
            None
        },
        InitDialogMsg::WarningToggled(value) => {
            state.set_plaintext_warning(value);
            None
        },
        InitDialogMsg::SubmitClicked => match state.submit(refusals) {
            Ok(init) => Some(InitDialogOutput::SubmitCreate(init)),
            Err(_) => None,
        },
        InitDialogMsg::ForceConfirmClicked => match state.consume_pending() {
            Some(init) => Some(InitDialogOutput::SubmitForceCreate(init)),
            None => None,
        },
        InitDialogMsg::ForceCancelClicked => {
            let _prior = state.clear_for(ClearReason::Cancel);
            None
        },
        InitDialogMsg::WorkerCompletedInline(inline) => {
            state.set_inline_error(Some(inline));
            None
        },
        InitDialogMsg::WorkerCompletedDestructive => {
            let _prior = state.stage_pending_for_force();
            None
        },
    }
}

/// Whether a message has to raise the question before a vault is replaced:
/// when the worker found a vault and the parameters are staged.
pub fn presents_destructive_alert(worker_found_vault: bool, state: &InitDialogState) -> (r: bool)
    ensures
        r == (worker_found_vault && state@.pending is Some),
{
    worker_found_vault && state.has_pending_force()
}

/// A submission that turns out to hit an existing vault can be confirmed: the
/// replacement uses the very parameters that were submitted, and the secrets
/// are gone afterwards.
pub proof fn replacement_uses_submitted_parameters(s: InitView, refusals: PassphraseRefusals)
    requires
        init_step(s, InitDialogMsg::SubmitClicked, refusals).1 is Some,
    ensures
        ({
            let submitted = init_step(s, InitDialogMsg::SubmitClicked, refusals);
            let found = init_step(
                submitted.0,
                InitDialogMsg::WorkerCompletedDestructive,
                refusals,
            );
            let confirmed = init_step(found.0, InitDialogMsg::ForceConfirmClicked, refusals);
            &&& submitted.1 == Some(InitRequest::Create(s.attempt()->Ok_0))
            &&& found.1 is None
            &&& confirmed.1 == Some(InitRequest::ForceCreate(s.attempt()->Ok_0))
            &&& confirmed.0.passphrase.len() == 0
            &&& confirmed.0.confirm.len() == 0
            &&& confirmed.0.pending is None
        }),
{
}

/// Declining the replacement leaves no secret, nothing staged and no error,
/// and a later confirmation does nothing.
pub proof fn declined_replacement_leaves_nothing(s: InitView, refusals: PassphraseRefusals)
    ensures
        ({
            let declined = init_step(s, InitDialogMsg::ForceCancelClicked, refusals);
            &&& declined.1 is None
            &&& declined.0.passphrase.len() == 0
            &&& declined.0.confirm.len() == 0
            &&& declined.0.pending is None
            &&& declined.0.error is None
            &&& init_step(declined.0, InitDialogMsg::ForceConfirmClicked, refusals) == (
                declined.0,
                None::<InitRequest>,
            )
        }),
{
}

/// Nothing but a confirmed question ever replaces a vault.
pub proof fn only_confirmation_replaces(
    s: InitView,
    msg: InitDialogMsg,
    refusals: PassphraseRefusals,
)
    requires
        init_step(s, msg, refusals).1 matches Some(InitRequest::ForceCreate(_)),
    ensures
        msg is ForceConfirmClicked,
        s.pending is Some,
{
}

/// An encrypted vault is never created with an empty passphrase, and a
/// plaintext vault never without the acknowledgement.
pub proof fn parameters_are_sound(passphrase: Seq<char>, confirm: Seq<char>, acknowledged: bool)
    ensures
        prepared(passphrase, confirm, acknowledged) matches Ok(VaultInitView::Encrypted(p))
            ==> p.len() > 0 && p == passphrase && p == confirm,
        prepared(passphrase, confirm, acknowledged) matches Ok(VaultInitView::Plaintext)
            ==> acknowledged && passphrase.len() == 0 && confirm.len() == 0,
{
}

/// What is created is what was typed: an encrypted vault under the passphrase
/// that stands in both entries, a plaintext one where both are empty and the
/// warning is acknowledged, and nothing otherwise.
pub proof fn typed_passphrase_protects_the_vault(s: InitView, refusals: PassphraseRefusals)
    ensures
        ({
            let (next, request) = init_step(s, InitDialogMsg::SubmitClicked, refusals);
            &&& s.passphrase == s.confirm && s.passphrase.len() > 0 ==> request == Some(
                InitRequest::Create(VaultInitView::Encrypted(s.passphrase)),
            )
            &&& s.passphrase.len() == 0 && s.confirm.len() == 0 && s.acknowledged ==> request
                == Some(InitRequest::Create(VaultInitView::Plaintext))
            &&& s.passphrase.len() == 0 && s.confirm.len() == 0 && !s.acknowledged
                ==> request is None && next.error is None
            &&& s.passphrase != s.confirm ==> {
                &&& request is None
                &&& next.error is Some && next.error->0.kind == ErrorKind::InvalidPassphrase
                &&& next.error->0.rendered == refusals.confirmation_mismatch
                &&& next.error->0.backup_path is None
            }
            &&& request is Some ==> next.error is None
            &&& next.passphrase == s.passphrase && next.confirm == s.confirm
            &&& next.pending == s.pending && next.acknowledged == s.acknowledged
        }),
        selected_mode(s.passphrase, s.confirm) == InitMode::Plaintext <==> s.passphrase.len() == 0
            && s.confirm.len() == 0,
        s.attempt() is Ok <==> s.passphrase == s.confirm && (s.passphrase.len() > 0
            || s.acknowledged),
{
    if s.passphrase.len() == 0 && s.confirm.len() == 0 {
        assert(s.passphrase =~= s.confirm);
    }
}

/// The entries and the acknowledgement hold what was last put into them, and
/// nothing else changes but an old error, which goes.
pub proof fn last_entry_counts(
    s: InitView,
    text: String,
    on: bool,
    inline: InlineError,
    refusals: PassphraseRefusals,
)
    ensures
        init_step(s, InitDialogMsg::PassphraseChanged(text), refusals) == (
            InitView { passphrase: text@, error: None, ..s },
            None::<InitRequest>,
        ),
        init_step(s, InitDialogMsg::ConfirmChanged(text), refusals) == (
            InitView { confirm: text@, error: None, ..s },
            None::<InitRequest>,
        ),
        init_step(s, InitDialogMsg::WarningToggled(on), refusals) == (
            InitView { acknowledged: on, error: None, ..s },
            None::<InitRequest>,
        ),
        init_step(s, InitDialogMsg::WorkerCompletedInline(inline), refusals) == (
            InitView { error: Some(inline), ..s },
            None::<InitRequest>,
        ),
        init_step(s, InitDialogMsg::ForceCancelClicked, refusals).0.acknowledged == s.acknowledged,
        InitView::fresh() == (InitView {
            passphrase: Seq::empty(),
            confirm: Seq::empty(),
            pending: None,
            acknowledged: false,
            error: None,
        }),
        s.wiped() == (InitView {
            passphrase: Seq::empty(),
            confirm: Seq::empty(),
            pending: None,
            acknowledged: s.acknowledged,
            error: None,
        }),
{
}

/// Where a vault is found, what was typed waits for the confirmation, and the
/// confirmation replaces the vault by exactly what waited.
pub proof fn replacement_is_what_waited(s: InitView, refusals: PassphraseRefusals)
    ensures
        ({
            let (found, request) = init_step(
                s,
                InitDialogMsg::WorkerCompletedDestructive,
                refusals,
            );
            &&& request is None
            &&& s.passphrase == s.confirm && s.passphrase.len() > 0 ==> found.pending == Some(
                VaultInitView::Encrypted(s.passphrase),
            )
            &&& s.passphrase.len() == 0 && s.confirm.len() == 0 && s.acknowledged ==> found.pending
                == Some(VaultInitView::Plaintext)
            &&& found == (InitView { pending: found.pending, ..s })
            &&& s.passphrase != s.confirm ==> found == s
        }),
        ({
            let (next, request) = init_step(s, InitDialogMsg::ForceConfirmClicked, refusals);
            &&& s.pending is None ==> request is None && next == s
            &&& s.pending is Some ==> request == Some(InitRequest::ForceCreate(s.pending->0)) && next
                == (InitView {
                passphrase: Seq::empty(),
                confirm: Seq::empty(),
                pending: None,
                ..s
            })
        }),
{
    if s.passphrase.len() == 0 && s.confirm.len() == 0 {
        assert(s.passphrase =~= s.confirm);
    }
}

/// What an error says: the words about the directory come before those about
/// permissions, and those before the engine's own. The place of the old vault is
/// named after a save that did not commit, and only then.
pub proof fn error_says_what_went_wrong(err: CreateError)
    ensures
        err.permissions_text matches Some(text) ==> shown_text(err) == text,
        err.permissions_text is None ==> shown_text(err) == err.error.rendered,
        err.create_dir_text matches Some(text) ==> shown_create_text(err) == text,
        err.create_dir_text is None && err.permissions_text is Some ==> shown_create_text(err)
            == err.permissions_text->0,
        err.create_dir_text is None && err.permissions_text is None ==> shown_create_text(err)
            == err.error.rendered,
        err.error.kind == ErrorKind::SaveNotCommitted ==> kept_backup(err) == err.backup_path,
        err.error.kind != ErrorKind::SaveNotCommitted ==> kept_backup(err) is None,
{
}

/// What comes of a worker: the vault where there is one, the question where a
/// first creation found a vault, and the error otherwise.
pub proof fn result_of_creation_is_shown<V>(
    mode: InitWorkerMode,
    result: Result<V, CreateError>,
    effect: InitWorkerEffect<V>,
)
    requires
        init_effect(mode, result, effect),
    ensures
        effect matches InitWorkerEffect::Success(vault) ==> result == Ok::<V, CreateError>(vault),
        effect is Success <==> result is Ok,
        effect is DestructiveGate <==> mode == InitWorkerMode::Create && result is Err
            && result->Err_0.error.kind == ErrorKind::VaultExists,
        effect matches InitWorkerEffect::InlineError(shown) ==> {
            let err = result->Err_0;
            &&& result is Err
            &&& shown.kind == err.error.kind
            &&& err.create_dir_text is Some ==> shown.rendered == err.create_dir_text->0
            &&& err.create_dir_text is None && err.permissions_text is Some ==> shown.rendered
                == err.permissions_text->0
            &&& err.create_dir_text is None && err.permissions_text is None ==> shown.rendered
                == err.error.rendered
            &&& shown.backup_path is Some <==> err.error.kind == ErrorKind::SaveNotCommitted
                && err.backup_path is Some
            &&& shown.backup_path is Some ==> shown.backup_path->0.bytes@
                == err.backup_path->0.bytes@
        },
{
}

/// A vault that is handed back was created with these parameters at this path and
/// then saved; an error is that of the creation or that of the save.
pub proof fn handed_vault_is_saved<
    V,
    C: FnOnce(&FilePath, VaultInit) -> Result<V, CreateError>,
    S: FnOnce(&V) -> Result<(), CreateError>,
>(create: C, save: S, path: &FilePath, init: VaultInit, result: Result<V, CreateError>)
    requires
        created_and_saved(create, save, path, init, result),
    ensures
        result matches Ok(vault) ==> call_ensures(create, (path, init), Ok(vault)) && call_ensures(
            save,
            (&vault,),
            Ok(()),
        ),
        result matches Err(err) ==> call_ensures(create, (path, init), Err(err)) || exists|vault: V|
            call_ensures(create, (path, init), Ok(vault)) && #[trigger] call_ensures(
                save,
                (&vault,),
                Err(err),
            ),
{
    let created = choose|created: Result<V, CreateError>|
        {
            &&& #[trigger] call_ensures(create, (path, init), created)
            &&& match created {
                Ok(vault) => exists|saved: Result<(), CreateError>|
                    {
                        &&& #[trigger] call_ensures(save, (&vault,), saved)
                        &&& match saved {
                            Ok(_) => result == Ok::<V, CreateError>(vault),
                            Err(err) => result == Err::<V, CreateError>(err),
                        }
                    },
                Err(err) => result == Err::<V, CreateError>(err),
            }
        };
    if let Ok(vault) = created {
        let saved = choose|saved: Result<(), CreateError>|
            {
                &&& #[trigger] call_ensures(save, (&vault,), saved)
                &&& match saved {
                    Ok(_) => result == Ok::<V, CreateError>(vault),
                    Err(err) => result == Err::<V, CreateError>(err),
                }
            };
        if let Ok(done) = saved {
            assert(done == ());
        }
    }
}

/// What is handed on is what the dialog asks for.
pub proof fn request_is_faithful(init: VaultInit)
    ensures
        request_of(Some(InitDialogOutput::SubmitCreate(init))) == Some(InitRequest::Create(init@)),
        request_of(Some(InitDialogOutput::SubmitForceCreate(init))) == Some(
            InitRequest::ForceCreate(init@),
        ),
        request_of(None) is None,
        optional_init(Some(init)) == Some(init@),
        optional_init(None) is None,
{
}

} // verus!

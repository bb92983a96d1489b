//! What the vault engine reports and accepts, as the dialogs see it: typed
//! errors with their rendered text, import and export options, and the
//! results of prechecks and effects.

use crate::paths::FilePath;
use crate::wiping::Passphrase;
use vstd::prelude::*;

verus! {

/// Stable discriminator of an engine error.
#[derive(Clone, Copy, Debug, PartialEq, Eq, Structural)]
pub enum ErrorKind {
    /// A field did not validate.
    ValidationError,
    /// A passphrase was refused before use.
    InvalidPassphrase,
    /// An operation did not fit the current state.
    InvalidState,
    /// An account of the same identity exists.
    DuplicateAccount,
    /// There is a vault where none was expected.
    VaultExists,
    /// There is no vault.
    VaultMissing,
    /// File permissions are too open.
    UnsafePermissions,
    /// The vault header is malformed.
    InvalidHeader,
    /// The vault payload is malformed.
    InvalidPayload,
    /// The vault format is not supported.
    UnsupportedFormatVersion,
    /// The key-derivation parameters are out of bounds.
    KdfParamsOutOfBounds,
    /// Decryption failed.
    DecryptFailed,
    /// The import format is not supported.
    UnsupportedImportFormat,
    /// A plaintext vault cannot be imported.
    UnsupportedPlaintextVault,
    /// An encrypted export of another application cannot be imported.
    UnsupportedEncryptedAegis,
    /// An entry type of another application cannot be imported.
    UnsupportedAegisEntryType,
    /// There was nothing to import.
    NoEntriesToImport,
    /// A save did not reach the disk and was rolled back.
    SaveNotCommitted,
    /// A save reached the disk but its durability is not certain.
    SaveDurabilityUnconfirmed,
    /// Input or output failed.
    IoError,
    /// Any other error.
    Other,
}

/// An engine error: its discriminator and its rendered text.
#[derive(Debug)]
pub struct PaladinError {
    /// Stable discriminator.
    pub kind: ErrorKind,
    /// Text as the engine renders it.
    pub rendered: String,
}

impl PaladinError {
    /// The discriminator.
    pub fn kind(&self) -> (r: ErrorKind)
        ensures
            r == self.kind,
    {
        self.kind
    }
}

/// How an import treats an account that exists already.
#[derive(Clone, Copy, Debug, PartialEq, Eq, Structural)]
pub enum ImportConflict {
    /// Keep the existing account.
    Skip,
    /// Replace the existing account.
    Replace,
    /// Add the account beside the existing one.
    Append,
}

/// Format of an import source.
#[derive(Clone, Copy, Debug, PartialEq, Eq, Structural)]
pub enum ImportFormat {
    /// List of `otpauth://` URIs.
    Otpauth,
    /// Plaintext Aegis export.
    Aegis,
    /// Encrypted Paladin bundle.
    Paladin,
    /// QR image.
    QrImage,
}

/// How a source is imported.
#[derive(Debug)]
pub struct ImportOptions {
    /// Forced format; without one the engine finds out.
    pub format: Option<ImportFormat>,
    /// Passphrase of an encrypted bundle.
    pub paladin_passphrase: Option<Passphrase>,
}

/// What a look at an import source says.
#[derive(Debug)]
pub enum PaladinImportPrecheck {
    /// No passphrase is needed.
    NoPrompt,
    /// The passphrase of the bundle is needed.
    PromptForPassphrase,
    /// The source is refused.
    Reject(PaladinError),
}

/// Result of an import.
#[derive(Debug)]
pub struct ImportReport {
    /// Accounts added.
    pub imported: usize,
    /// Accounts skipped.
    pub skipped: usize,
    /// Accounts replaced.
    pub replaced: usize,
    /// Accounts appended beside an existing one.
    pub appended: usize,
    /// Non-fatal warnings.
    pub warnings: Vec<String>,
}

/// Encryption under a passphrase, with the default cost. The passphrase is
/// not empty.
#[derive(Debug)]
pub struct EncryptionOptions {
    passphrase: Passphrase,
}

impl View for EncryptionOptions {
    type V = Seq<char>;

    closed spec fn view(&self) -> Seq<char> {
        self.passphrase@
    }
}

impl EncryptionOptions {
    #[verifier::type_invariant]
    spec fn has_passphrase(self) -> bool {
        self.passphrase@.len() > 0
    }

    /// Options for a passphrase; an empty passphrase is refused.
    pub fn new(passphrase: Passphrase) -> (r: Option<Self>)
        ensures
            r is Some <==> passphrase@.len() > 0,
            r is Some ==> r->0@ == passphrase@,
    {
        if passphrase.expose().is_empty() {
            None
        } else {
            Some(EncryptionOptions { passphrase })
        }
    }

    /// The passphrase, for the one caller that hands it to the engine.
    pub fn passphrase(&self) -> (r: &str)
        ensures
            r@ == self@,
            r@.len() > 0,
    {
        proof {
            use_type_invariant(self);
        }
        self.passphrase.expose()
    }
}

/// How a vault is created.
#[derive(Debug)]
pub enum VaultInit {
    /// Without encryption.
    Plaintext,
    /// Encrypted.
    Encrypted(EncryptionOptions),
}

/// How a vault is created, in mathematical terms.
pub enum VaultInitView {
    /// Without encryption.
    Plaintext,
    /// Encrypted under a passphrase.
    Encrypted(Seq<char>),
}

impl View for VaultInit {
    type V = VaultInitView;

    open spec fn view(&self) -> VaultInitView {
        match self {
            VaultInit::Plaintext => VaultInitView::Plaintext,
            VaultInit::Encrypted(options) => VaultInitView::Encrypted(options@),
        }
    }
}

/// A failed creation of a vault: the error, and what the engine adds to it.
#[derive(Debug)]
pub struct CreateError {
    /// The error itself.
    pub error: PaladinError,
    /// Text for permissions that are too open, where the error is about that.
    pub permissions_text: Option<String>,
    /// Text that names the directory which could not be made, where the error
    /// is about that.
    pub create_dir_text: Option<String>,
    /// Where the replaced vault was kept, as far as the error says so.
    pub backup_path: Option<FilePath>,
}

/// What a look at the vault file says before a vault is created.
#[derive(Debug)]
pub enum InitPrecheck {
    /// There is none.
    Clear,
    /// There is one.
    Existing,
    /// The look failed.
    Propagate(CreateError),
}

/// What becomes of an account's icon.
#[derive(Debug)]
pub enum IconHintInput {
    /// Derive it from the issuer.
    Default,
    /// Have none.
    Clear,
    /// Use this slug.
    Slug(String),
}

impl Clone for IconHintInput {
    fn clone(&self) -> (r: Self)
        ensures
            r == *self,
    {
        match self {
            IconHintInput::Default => IconHintInput::Default,
            IconHintInput::Clear => IconHintInput::Clear,
            IconHintInput::Slug(slug) => IconHintInput::Slug(slug.clone()),
        }
    }
}

/// What becomes of an account's icon, in mathematical terms.
pub enum IconHintView {
    /// Derive it from the issuer.
    Default,
    /// Have none.
    Clear,
    /// Use this slug.
    Slug(Seq<char>),
}

impl View for IconHintInput {
    type V = IconHintView;

    open spec fn view(&self) -> IconHintView {
        match self {
            IconHintInput::Default => IconHintView::Default,
            IconHintInput::Clear => IconHintView::Clear,
            IconHintInput::Slug(slug) => IconHintView::Slug(slug@),
        }
    }
}

/// Changes to an account's metadata; `None` leaves a field as it is.
#[derive(Clone, Debug)]
pub struct AccountEdit {
    /// New label.
    pub label: Option<String>,
    /// New issuer, or none.
    pub issuer: Option<Option<String>>,
    /// New icon.
    pub icon_hint: Option<IconHintInput>,
}

/// Changes to an account's metadata, in mathematical terms.
pub struct AccountEditView {
    /// New label.
    pub label: Option<Seq<char>>,
    /// New issuer, or none.
    pub issuer: Option<Option<Seq<char>>>,
    /// New icon.
    pub icon_hint: Option<IconHintView>,
}

impl View for AccountEdit {
    type V = AccountEditView;

    open spec fn view(&self) -> AccountEditView {
        AccountEditView {
            label: crate::text::optional_text(self.label),
            issuer: match self.issuer {
                Some(issuer) => Some(crate::text::optional_text(issuer)),
                None => None,
            },
            icon_hint: match self.icon_hint {
                Some(input) => Some(input@),
                None => None,
            },
        }
    }
}

/// What the deletion of a vault did.
#[derive(Clone, Copy, Debug, PartialEq, Eq, Structural)]
pub struct DestroyReport {
    /// Whether the backup was deleted too.
    pub backup_deleted: bool,
}

/// An operation that does not fit the current state.
#[derive(Clone, Copy, Debug)]
pub struct InvalidStateError {
    /// The operation.
    pub operation: &'static str,
    /// The state.
    pub state: &'static str,
}

/// A one-time code.
#[derive(Debug)]
pub struct Code {
    /// The digits.
    pub code: String,
    /// Start of its validity, in seconds since the epoch.
    pub valid_from: Option<u64>,
    /// End of its validity, in seconds since the epoch.
    pub valid_until: Option<u64>,
    /// Seconds until it is replaced.
    pub seconds_remaining: Option<u64>,
    /// Counter that it belongs to; none for a time-based code.
    pub counter_used: Option<u64>,
}

/// Changes in mathematical terms are the changes themselves, field by field.
pub proof fn edit_view_is_faithful(edit: AccountEdit)
    ensures
        edit@.label is Some <==> edit.label is Some,
        edit.label is Some ==> edit@.label->0 == edit.label->0@,
        edit@.issuer is Some <==> edit.issuer is Some,
        edit.issuer is Some ==> (edit@.issuer->0 is Some <==> edit.issuer->0 is Some),
        edit.issuer is Some && edit.issuer->0 is Some ==> edit@.issuer->0->0
            == edit.issuer->0->0@,
        edit@.icon_hint is Some <==> edit.icon_hint is Some,
        edit.icon_hint matches Some(IconHintInput::Default) ==> edit@.icon_hint == Some(
            IconHintView::Default,
        ),
        edit.icon_hint matches Some(IconHintInput::Clear) ==> edit@.icon_hint == Some(
            IconHintView::Clear,
        ),
        edit.icon_hint matches Some(IconHintInput::Slug(slug)) ==> edit@.icon_hint == Some(
            IconHintView::Slug(slug@),
        ),
{
}

/// An encrypted vault and a plaintext one are told apart, and an encrypted one
/// is made under the passphrase that its options hold.
pub proof fn init_view_is_faithful(init: VaultInit)
    ensures
        init@ is Plaintext <==> init is Plaintext,
        init matches VaultInit::Encrypted(options) ==> init@ == VaultInitView::Encrypted(options@),
{
}

} // verus!

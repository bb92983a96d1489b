//! The passphrase dialog: which changes a vault allows, and when a new
//! passphrase is accepted.

use crate::paths::FilePath;
use crate::text::same_text;
use crate::vault::EncryptionOptions;
use crate::vault::ErrorKind;
use crate::wiping::Passphrase;
use vstd::prelude::*;

verus! {

/// A change of a vault's passphrase.
#[derive(Clone, Copy, Debug, PartialEq, Eq, Structural)]
pub enum SubFlow {
    /// Encrypt a plaintext vault.
    SetPassphrase,
    /// Encrypt under another passphrase.
    Change,
    /// Store in plaintext.
    Remove,
}

impl SubFlow {
    /// Whether a vault allows the change.
    pub open spec fn fits(self, is_encrypted: bool) -> bool {
        (self is SetPassphrase) != is_encrypted
    }

    /// Whether a vault allows the change: a plaintext vault can be encrypted,
    /// an encrypted one can be changed or stored in plaintext.
    pub fn is_available(self, is_encrypted: bool) -> (r: bool)
        ensures
            r == self.fits(is_encrypted),
            r == (match self {
                SubFlow::SetPassphrase => !is_encrypted,
                SubFlow::Change => is_encrypted,
                SubFlow::Remove => is_encrypted,
            }),
    {
        match self {
            SubFlow::SetPassphrase => !is_encrypted,
            SubFlow::Change | SubFlow::Remove => is_encrypted,
        }
    }
}

/// The changes that a vault allows, in the order in which they are offered.
pub open spec fn offered(is_encrypted: bool) -> Seq<SubFlow> {
    if is_encrypted {
        seq![SubFlow::Change, SubFlow::Remove]
    } else {
        seq![SubFlow::SetPassphrase]
    }
}

/// The changes that a vault allows, in the order in which they are offered.
pub fn available_sub_flows(is_encrypted: bool) -> (r: &'static [SubFlow])
    ensures
        r@ == offered(is_encrypted),
{
    if is_encrypted {
        &[SubFlow::Change, SubFlow::Remove]
    } else {
        &[SubFlow::SetPassphrase]
    }
}

/// Why a new passphrase is refused.
#[derive(Clone, Copy, Debug, PartialEq, Eq, Structural)]
pub enum SubmitRejection {
    /// The two entries differ.
    ConfirmationMismatch,
    /// Both entries are empty.
    ZeroLength,
}

impl SubmitRejection {
    /// Stable discriminator.
    pub fn error_kind(&self) -> (r: ErrorKind)
        ensures
            r == ErrorKind::InvalidPassphrase,
    {
        ErrorKind::InvalidPassphrase
    }

    /// Stable code of the reason.
    pub fn reason(&self) -> (r: &'static str)
        ensures
            r@ == (match *self {
                SubmitRejection::ConfirmationMismatch => "confirmation_mismatch"@,
                SubmitRejection::ZeroLength => "zero_length"@,
            }),
    {
        match self {
            SubmitRejection::ConfirmationMismatch => "confirmation_mismatch",
            SubmitRejection::ZeroLength => "zero_length",
        }
    }
}

/// Accepts a new passphrase that was entered twice: the entries must be the
/// same and not empty.
pub fn prepare_new_passphrase(passphrase: &str, confirm: &str) -> (r: Result<
    EncryptionOptions,
    SubmitRejection,
>)
    ensures
        match r {
            Ok(options) => passphrase@ == confirm@ && passphrase@.len() > 0 && options@
                == passphrase@,
            Err(SubmitRejection::ConfirmationMismatch) => passphrase@ != confirm@,
            Err(SubmitRejection::ZeroLength) => passphrase@ == confirm@ && passphrase@.len() == 0,
        },
{
    if !same_text(passphrase, confirm) {
        return Err(SubmitRejection::ConfirmationMismatch);
    }
    if passphrase.is_empty() {
        return Err(SubmitRejection::ZeroLength);
    }
    match EncryptionOptions::new(Passphrase::new(passphrase)) {
        Some(options) => Ok(options),
        None => Err(SubmitRejection::ZeroLength),
    }
}

/// What the dialog is opened with.
#[derive(Clone, Debug)]
pub struct PassphraseDialogInit {
    /// Path of the vault.
    pub vault_path: FilePath,
    /// Whether the vault is encrypted.
    pub is_encrypted: bool,
}

/// What the dialog asks for.
#[derive(Clone, Copy, Debug)]
pub enum PassphraseDialogOutput {
    /// Drop the dialog.
    Close,
}

/// The dialog offers a change exactly where the vault allows it.
pub proof fn offers_what_fits(flow: SubFlow, is_encrypted: bool)
    ensures
        offered(is_encrypted).contains(flow) <==> flow.fits(is_encrypted),
{
    let flows = offered(is_encrypted);
    if is_encrypted {
        assert(flows[0] == SubFlow::Change);
        assert(flows[1] == SubFlow::Remove);
    } else {
        assert(flows[0] == SubFlow::SetPassphrase);
    }
}

/// A plaintext vault can be encrypted and nothing else; an encrypted one can be
/// given another passphrase or be stored in plaintext, in this order.
pub proof fn changes_follow_the_encryption()
    ensures
        SubFlow::SetPassphrase.fits(false) && !SubFlow::SetPassphrase.fits(true),
        SubFlow::Change.fits(true) && !SubFlow::Change.fits(false),
        SubFlow::Remove.fits(true) && !SubFlow::Remove.fits(false),
        offered(false) == seq![SubFlow::SetPassphrase],
        offered(true) == seq![SubFlow::Change, SubFlow::Remove],
{
}

} // verus!

//! Shadow buffers of passphrase entries and the state that holds them.

use crate::vault::VaultInit;
use crate::wiping::WipedText;
use vstd::prelude::*;

verus! {

/// What a passphrase entry holds. The text is zeroed when it is replaced,
/// cleared or dropped.
pub struct SecretEntry {
    text: WipedText,
}

impl View for SecretEntry {
    type V = Seq<char>;

    closed spec fn view(&self) -> Seq<char> {
        self.text@
    }
}

impl SecretEntry {
    /// An empty entry.
    pub fn new() -> (r: Self)
        ensures
            r@ == Seq::<char>::empty(),
    {
        SecretEntry { text: WipedText::new(String::new()) }
    }

    /// Replaces the text.
    pub fn set(&mut self, text: &str)
        ensures
            final(self)@ == text@,
    {
        self.text.wipe();
        self.text = WipedText::new(text.to_owned());
    }

    /// The text.
    pub fn text(&self) -> (r: &str)
        ensures
            r@ == self@,
    {
        self.text.as_str()
    }

    /// Whether the entry is empty.
    pub fn is_empty(&self) -> (r: bool)
        ensures
            r == (self@.len() == 0),
    {
        self.text.as_str().is_empty()
    }

    /// Zeroes the text.
    pub fn clear(&mut self)
        ensures
            final(self)@ == Seq::<char>::empty(),
    {
        self.text.wipe();
    }
}

impl Default for SecretEntry {
    fn default() -> (r: Self)
        ensures
            r@ == Seq::<char>::empty(),
    {
        SecretEntry::new()
    }
}

/// Why the secrets of a dialog are wiped.
#[derive(Clone, Copy, Debug, PartialEq, Eq, Structural)]
pub enum ClearReason {
    /// The dialog was submitted.
    Submit,
    /// The dialog was cancelled.
    Cancel,
    /// The dialog was closed.
    Close,
    /// The vault locked itself.
    AutoLock,
    /// The dialog was replaced.
    Replace,
}

/// Secrets of the dialog that creates a vault.
pub struct InitSecretState {
    /// Passphrase entry.
    pub passphrase: SecretEntry,
    /// Entry that confirms the passphrase.
    pub confirm: SecretEntry,
    /// Parameters that wait for the confirmation to replace a vault.
    pub pending: Option<VaultInit>,
}

impl InitSecretState {
    /// Empty entries and nothing pending.
    pub fn new() -> (r: Self)
        ensures
            r.passphrase@ == Seq::<char>::empty(),
            r.confirm@ == Seq::<char>::empty(),
            r.pending is None,
    {
        InitSecretState { passphrase: SecretEntry::new(), confirm: SecretEntry::new(), pending: None }
    }

    /// Stages parameters and returns what was staged before.
    pub fn replace_pending(&mut self, init: VaultInit) -> (prior: Option<VaultInit>)
        ensures
            final(self).passphrase == old(self).passphrase,
            final(self).confirm == old(self).confirm,
            final(self).pending == Some(init),
            prior == old(self).pending,
    {
        let prior = self.pending.take();
        self.pending = Some(init);
        prior
    }

    /// Takes what is staged and wipes both entries. Where nothing is staged,
    /// nothing happens.
    pub fn consume_pending(&mut self) -> (taken: Option<VaultInit>)
        ensures
            taken == old(self).pending,
            final(self).pending is None,
            old(self).pending is Some ==> final(self).passphrase@ == Seq::<char>::empty()
                && final(self).confirm@ == Seq::<char>::empty(),
            old(self).pending is None ==> *final(self) == *old(self),
    {
        if self.pending.is_none() {
            return None;
        }
        self.passphrase.clear();
        self.confirm.clear();
        self.pending.take()
    }

    /// Wipes both entries and returns what was staged. Every reason wipes the
    /// same.
    pub fn clear_for(&mut self, _reason: ClearReason) -> (prior: Option<VaultInit>)
        ensures
            prior == old(self).pending,
            final(self).pending is None,
            final(self).passphrase@ == Seq::<char>::empty(),
            final(self).confirm@ == Seq::<char>::empty(),
    {
        self.passphrase.clear();
        self.confirm.clear();
        self.pending.take()
    }
}

} // verus!

//! Values that leave no trace in memory: text and bytes that are zeroed when
//! they are dropped, and passphrases that are only read on purpose.
//!
//! The wiping itself is the work of the `zeroize` and `secrecy` crates. What
//! is stated here is what the values hold and that a wipe empties them; that
//! the memory is overwritten is not stated.

use secrecy::ExposeSecret;
use secrecy::SecretString;
use vstd::prelude::*;
use zeroize::Zeroize;
use zeroize::Zeroizing;

verus! {

/// Text that is zeroed when dropped. Holds a `zeroize::Zeroizing<String>`.
#[derive(Debug)]
#[verifier::external_body]
pub struct WipedText {
    text: Zeroizing<String>,
}

/// The characters that a wiped text holds.
pub uninterp spec fn wiped_text(t: WipedText) -> Seq<char>;

impl View for WipedText {
    type V = Seq<char>;

    open spec fn view(&self) -> Seq<char> {
        wiped_text(*self)
    }
}

/// `zeroize::Zeroizing::new` on a `String`: the wrapper holds the characters
/// of the string it is given.
#[verifier::external_body]
fn zeroizing_text(text: String) -> (r: WipedText)
    ensures
        wiped_text(r) == text@,
{
    WipedText { text: Zeroizing::new(text) }
}

/// `Deref` of `zeroize::Zeroizing<String>`: gives the characters it holds.
#[verifier::external_body]
fn zeroizing_str(t: &WipedText) -> (r: &str)
    ensures
        r@ == wiped_text(*t),
{
    t.text.as_str()
}

/// `zeroize::Zeroize::zeroize` on a `Zeroizing<String>`: overwrites the
/// characters and leaves an empty string.
#[verifier::external_body]
fn zeroize_text(t: &mut WipedText)
    ensures
        wiped_text(*final(t)) == Seq::<char>::empty(),
{
    t.text.zeroize();
}

impl WipedText {
    /// Takes over `text`.
    pub fn new(text: String) -> (r: Self)
        ensures
            r@ == text@,
    {
        zeroizing_text(text)
    }

    /// The characters held.
    pub fn as_str(&self) -> (r: &str)
        ensures
            r@ == self@,
    {
        zeroizing_str(self)
    }

    /// Overwrites the characters and leaves none.
    pub fn wipe(&mut self)
        ensures
            final(self)@ == Seq::<char>::empty(),
    {
        zeroize_text(self)
    }
}

/// Bytes that are zeroed when dropped. Holds a `zeroize::Zeroizing<Vec<u8>>`.
#[derive(Debug, PartialEq, Eq)]
#[verifier::external_body]
pub struct WipedBytes {
    bytes: Zeroizing<Vec<u8>>,
}

/// The bytes that a wiped buffer holds.
pub uninterp spec fn wiped_bytes(b: WipedBytes) -> Seq<u8>;

impl View for WipedBytes {
    type V = Seq<u8>;

    open spec fn view(&self) -> Seq<u8> {
        wiped_bytes(*self)
    }
}

/// `zeroize::Zeroizing::new` on a `Vec<u8>`: the wrapper holds the bytes of
/// the vector it is given.
#[verifier::external_body]
fn zeroizing_bytes(bytes: Vec<u8>) -> (r: WipedBytes)
    ensures
        wiped_bytes(r) == bytes@,
{
    WipedBytes { bytes: Zeroizing::new(bytes) }
}

/// `Deref` of `zeroize::Zeroizing<Vec<u8>>`: gives the bytes it holds.
#[verifier::external_body]
fn zeroizing_slice(b: &WipedBytes) -> (r: &[u8])
    ensures
        r@ == wiped_bytes(*b),
{
    b.bytes.as_slice()
}

impl WipedBytes {
    /// Takes over `bytes`.
    pub fn new(bytes: Vec<u8>) -> (r: Self)
        ensures
            r@ == bytes@,
    {
        zeroizing_bytes(bytes)
    }

    /// The bytes held.
    pub fn as_slice(&self) -> (r: &[u8])
        ensures
            r@ == self@,
    {
        zeroizing_slice(self)
    }
}

impl Clone for WipedBytes {
    fn clone(&self) -> (r: Self)
        ensures
            r@ == self@,
    {
        let held: &[u8] = self.as_slice();
        let mut copy: Vec<u8> = Vec::with_capacity(held.len());
        let mut i: usize = 0;
        while i < held.len()
            invariant
                i <= held.len(),
                copy@ == held@.subrange(0, i as int),
            decreases held.len() - i,
        {
            copy.push(held[i]);
            i = i + 1;
            assert(copy@ =~= held@.subrange(0, i as int));
        }
        assert(held@.subrange(0, i as int) =~= held@);
        WipedBytes::new(copy)
    }
}

/// A passphrase. Holds a `secrecy::SecretString`.
#[derive(Debug)]
#[verifier::external_body]
pub struct Passphrase {
    secret: SecretString,
}

/// The characters of a passphrase.
pub uninterp spec fn passphrase_chars(p: Passphrase) -> Seq<char>;

impl View for Passphrase {
    type V = Seq<char>;

    open spec fn view(&self) -> Seq<char> {
        passphrase_chars(*self)
    }
}

/// `From<String>` of `secrecy::SecretString`: the secret holds the characters
/// of the string it is given.
#[verifier::external_body]
fn secret_from(text: String) -> (r: Passphrase)
    ensures
        passphrase_chars(r) == text@,
{
    Passphrase { secret: SecretString::from(text) }
}

/// `ExposeSecret::expose_secret` of `secrecy::SecretString`: gives the
/// characters it holds.
#[verifier::external_body]
fn exposed(p: &Passphrase) -> (r: &str)
    ensures
        r@ == passphrase_chars(*p),
{
    p.secret.expose_secret()
}

impl Passphrase {
    /// A passphrase with the characters of `text`.
    pub fn new(text: &str) -> (r: Self)
        ensures
            r@ == text@,
    {
        secret_from(text.to_owned())
    }

    /// The characters, for the one caller that hands them to the engine.
    pub fn expose(&self) -> (r: &str)
        ensures
            r@ == self@,
    {
        exposed(self)
    }
}

/// `zeroize::Zeroize::zeroize` on a `String`: overwrites the characters and
/// leaves an empty string.
#[verifier::external_body]
pub(crate) fn wipe_string(text: &mut String)
    ensures
        final(text)@ == Seq::<char>::empty(),
{
    text.zeroize();
}

} // verus!

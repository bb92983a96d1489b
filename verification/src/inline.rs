//! Inline errors and warnings: the form in which a dialog shows an engine
//! error.

use crate::vault::ErrorKind;
use crate::vault::PaladinError;
use vstd::prelude::*;

verus! {

/// An error shown in a dialog.
#[derive(Debug, PartialEq, Eq)]
pub struct InlineError {
    /// Stable discriminator.
    pub kind: ErrorKind,
    /// Text shown.
    pub rendered: String,
}

/// An error shown in a dialog, in mathematical terms.
pub struct InlineErrorView {
    /// Stable discriminator.
    pub kind: ErrorKind,
    /// Text shown.
    pub rendered: Seq<char>,
}

impl View for InlineError {
    type V = InlineErrorView;

    open spec fn view(&self) -> InlineErrorView {
        InlineErrorView { kind: self.kind, rendered: self.rendered@ }
    }
}

/// An optional error in mathematical terms.
pub open spec fn optional_error(err: Option<InlineError>) -> Option<InlineErrorView> {
    match err {
        Some(err) => Some(err@),
        None => None,
    }
}

impl InlineError {
    /// The inline form of an engine error.
    pub fn from_error(err: &PaladinError) -> (r: Self)
        ensures
            r.kind == err.kind,
            r.rendered == err.rendered,
    {
        InlineError { kind: err.kind, rendered: err.rendered.clone() }
    }
}

impl Clone for InlineError {
    fn clone(&self) -> (r: Self)
        ensures
            r == *self,
    {
        InlineError { kind: self.kind, rendered: self.rendered.clone() }
    }
}

/// The inline form of an engine error.
pub open spec fn inline_error(err: PaladinError) -> InlineError {
    InlineError { kind: err.kind, rendered: err.rendered }
}

/// A warning shown in a dialog: the change reached the disk, but its
/// durability is not certain.
#[derive(Debug, PartialEq, Eq)]
pub struct InlineWarning {
    /// Stable discriminator.
    pub kind: ErrorKind,
    /// Text shown.
    pub rendered: String,
}

impl InlineWarning {
    /// The inline form of an engine error that is no more than a warning.
    pub fn from_error(err: &PaladinError) -> (r: Self)
        ensures
            r.kind == err.kind,
            r.rendered == err.rendered,
    {
        InlineWarning { kind: err.kind, rendered: err.rendered.clone() }
    }
}

impl Clone for InlineWarning {
    fn clone(&self) -> (r: Self)
        ensures
            r == *self,
    {
        InlineWarning { kind: self.kind, rendered: self.rendered.clone() }
    }
}

/// The inline form of an engine error that is no more than a warning.
pub open spec fn inline_warning(err: PaladinError) -> InlineWarning {
    InlineWarning { kind: err.kind, rendered: err.rendered }
}

/// What the engine renders for the two ways in which a typed passphrase pair
/// is refused.
#[derive(Debug)]
pub struct PassphraseRefusals {
    /// Text for a pair that does not match.
    pub confirmation_mismatch: String,
    /// Text for an empty passphrase.
    pub zero_length: String,
}

/// An error and a warning are shown with the kind and the words of the engine.
pub proof fn engine_words_are_kept(err: PaladinError)
    ensures
        inline_error(err).kind == err.kind,
        inline_error(err).rendered == err.rendered,
        inline_error(err)@.kind == err.kind,
        inline_error(err)@.rendered == err.rendered@,
        inline_warning(err).kind == err.kind,
        inline_warning(err).rendered == err.rendered,
        optional_error(Some(inline_error(err))) == Some(
            InlineErrorView { kind: err.kind, rendered: err.rendered@ },
        ),
        optional_error(None) is None,
{
}

} // verus!

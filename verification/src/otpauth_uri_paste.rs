//! An account pasted as an `otpauth://` URI: what the engine's parse and the
//! save mean for the dialog.

pub use crate::inline::InlineError;
pub use crate::inline::InlineWarning;

use crate::inline::inline_error;
use crate::inline::inline_warning;
use crate::vault::ErrorKind;
use crate::vault::PaladinError;
use vstd::prelude::*;

verus! {

/// What the parse of a URI means for the dialog. `A` is the parsed account.
#[derive(Debug)]
pub enum UriSubmitOutcome<A> {
    /// The URI names this account.
    Proceed(A),
    /// The URI is refused.
    InlineError(InlineError),
}

/// What the parse of a URI means for the dialog.
pub open spec fn uri_submit<A>(parsed: Result<A, PaladinError>) -> UriSubmitOutcome<A> {
    match parsed {
        Ok(account) => UriSubmitOutcome::Proceed(account),
        Err(err) => UriSubmitOutcome::InlineError(inline_error(err)),
    }
}

/// Decides what the parse of a URI means for the dialog.
pub fn classify_parsed_uri<A>(parsed: Result<A, PaladinError>) -> (r: UriSubmitOutcome<A>)
    ensures
        r == uri_submit(parsed),
{
    match parsed {
        Ok(account) => UriSubmitOutcome::Proceed(account),
        Err(err) => UriSubmitOutcome::InlineError(InlineError::from_error(&err)),
    }
}

/// Parses a URI and decides what the result means for the dialog. The text is
/// handed to `parse` as it is, and nothing else is kept of it.
pub fn classify_uri_submit<A, F: FnOnce(&str) -> Result<A, PaladinError>>(
    uri: &str,
    parse: F,
) -> (r: UriSubmitOutcome<A>)
    requires
        call_requires(parse, (uri,)),
    ensures
        exists|parsed: Result<A, PaladinError>| #[trigger]
            call_ensures(parse, (uri,), parsed) && r == uri_submit(parsed),
{
    classify_parsed_uri(parse(uri))
}

/// What a failed save means for the dialog.
#[derive(Clone, Debug)]
pub enum UriAddErrorOutcome {
    /// The account is not saved.
    Inline(InlineError),
    /// The account is saved, but its durability is not certain.
    KeepWithWarning(InlineWarning),
}

/// Decides what a failed save means for the dialog.
pub fn classify_uri_add_error(err: &PaladinError) -> (r: UriAddErrorOutcome)
    ensures
        r == (if err.kind == ErrorKind::SaveDurabilityUnconfirmed {
            UriAddErrorOutcome::KeepWithWarning(inline_warning(*err))
        } else {
            UriAddErrorOutcome::Inline(inline_error(*err))
        }),
{
    match err.kind() {
        ErrorKind::SaveDurabilityUnconfirmed => {
            UriAddErrorOutcome::KeepWithWarning(InlineWarning::from_error(err))
        },
        _ => UriAddErrorOutcome::Inline(InlineError::from_error(err)),
    }
}

/// A URI that parses gives its account; one that does not is refused in the
/// engine's words.
pub proof fn parsed_account_is_taken<A>(parsed: Result<A, PaladinError>)
    ensures
        match parsed {
            Ok(account) => uri_submit(parsed) == UriSubmitOutcome::Proceed(account),
            Err(err) => uri_submit(parsed) matches UriSubmitOutcome::InlineError(shown)
                && shown.kind == err.kind && shown.rendered == err.rendered,
        },
{
}

} // verus!

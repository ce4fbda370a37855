mod kind;

pub use kind::{kind_label, Kind};
use vstd::prelude::*;

verus! {

/// Everything that can go wrong while building, parsing or opening an
/// envelope.
#[derive(Clone, Copy, Debug, PartialEq, Eq, Structural)]
pub enum Error {
    /// The MAC primitive rejected the derived key material.
    InvalidKeyLength,
    /// The byte buffer ended before the named header field was complete.
    TruncatedInput(Kind),
    /// The input held a non-hex character or had odd length.
    MalformedHex,
    /// The block padding was malformed after decryption.
    InvalidPadding,
    /// The stored tag did not match the recomputed one.
    AuthenticationFailed,
}

/// The message a caller may show for each error.
///
/// `AuthenticationFailed` and `InvalidPadding` share one message on purpose:
/// a network-facing caller must not be able to tell a failed tag check from
/// malformed padding, or it leaks a padding oracle.
pub open spec fn error_message(e: Error) -> Seq<char> {
    match e {
        Error::InvalidKeyLength => "invalid MAC key length"@,
        Error::TruncatedInput(_) => "missing bytes"@,
        Error::MalformedHex => "malformed hex input"@,
        Error::InvalidPadding => "decryption failed"@,
        Error::AuthenticationFailed => "decryption failed"@,
    }
}

impl Error {
    /// A human-readable description of the error.
    pub fn message(&self) -> (r: String)
        ensures
            r@ == error_message(*self),
    {
        match self {
            Error::InvalidKeyLength => String::from_str("invalid MAC key length"),
            Error::TruncatedInput(_) => String::from_str("missing bytes"),
            Error::MalformedHex => String::from_str("malformed hex input"),
            Error::InvalidPadding => String::from_str("decryption failed"),
            Error::AuthenticationFailed => String::from_str("decryption failed"),
        }
    }
}

/// A tag-check failure and a padding failure present the same message, so a
/// caller that forwards `message()` cannot serve as a padding oracle.
pub proof fn lemma_failure_messages_indistinguishable()
    ensures
        error_message(Error::AuthenticationFailed) == error_message(Error::InvalidPadding),
{
}

} // verus!

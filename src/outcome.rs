//! The outcome of a verification request and how it is reported.

use vstd::prelude::*;

verus! {

/// What a verification request came to.
#[derive(Clone, Copy, Debug, PartialEq, Eq, Structural)]
pub enum VerificationOutcome {
    /// The nonce was current and the signature is valid; the nonce is used up.
    Verified,
    /// The claimed nonce is not the current challenge.
    NonceMismatch,
    /// The signature text is not base64, or does not decode to 64 bytes.
    InvalidEncoding,
    /// The signature does not verify against the message and the key.
    InvalidSignature,
    /// No valid verifying key could be obtained.
    KeyUnavailable,
}

/// The HTTP status class of each outcome: success, client error, or server
/// error for a missing key.
pub open spec fn status_of(o: VerificationOutcome) -> u16 {
    match o {
        VerificationOutcome::Verified => 200,
        VerificationOutcome::KeyUnavailable => 500,
        _ => 400,
    }
}

/// The human-readable text reported for each outcome.
pub open spec fn message_of(o: VerificationOutcome) -> Seq<char> {
    match o {
        VerificationOutcome::Verified => "Signature is valid."@,
        VerificationOutcome::NonceMismatch => "Invalid nonce."@,
        VerificationOutcome::InvalidEncoding => "Signature is not the base64 encoding of 64 bytes."@,
        VerificationOutcome::InvalidSignature => "Invalid signature."@,
        VerificationOutcome::KeyUnavailable => "Verifying key is unavailable."@,
    }
}

impl VerificationOutcome {
    /// Whether the request was verified.
    pub fn is_verified(&self) -> (r: bool)
        ensures
            r == (*self == VerificationOutcome::Verified),
    {
        match self {
            VerificationOutcome::Verified => true,
            _ => false,
        }
    }

    /// The HTTP status code that reports this outcome.
    pub fn status_code(&self) -> (r: u16)
        ensures
            r == status_of(*self),
    {
        match self {
            VerificationOutcome::Verified => 200,
            VerificationOutcome::KeyUnavailable => 500,
            _ => 400,
        }
    }

    /// The text reported with this outcome. It never holds the current nonce.
    pub fn message(&self) -> (r: &'static str)
        ensures
            r@ == message_of(*self),
    {
        match self {
            VerificationOutcome::Verified => "Signature is valid.",
            VerificationOutcome::NonceMismatch => "Invalid nonce.",
            VerificationOutcome::InvalidEncoding => "Signature is not the base64 encoding of 64 bytes.",
            VerificationOutcome::InvalidSignature => "Invalid signature.",
            VerificationOutcome::KeyUnavailable => "Verifying key is unavailable.",
        }
    }
}

} // verus!

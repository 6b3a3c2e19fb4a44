//! The two-step exchange: issue the current challenge, then accept a signed
//! payload, check that it is bound to the challenge, verify its signature, and
//! rotate the challenge on success.

use crate::client::VerifyPayload;
use crate::key::{KeyError, PublicKey};
use crate::nonce::{is_v4, lemma_nonce_text_len, nonce_text, NonceAuthority};
use crate::outcome::VerificationOutcome;
use crate::signature::{signature_outcome, verify_signature};
use vstd::prelude::*;
use vstd::utf8::encode_utf8;

verus! {

/// The key bytes that a key lookup yields, if any.
pub open spec fn key_view(key: Result<PublicKey, KeyError>) -> Option<Seq<u8>> {
    match key {
        Ok(k) => Some(k@),
        Err(_) => None,
    }
}

/// The outcome of a submission made while `current` is the challenge: the
/// nonce binding is checked first, then the key, then the signature.
pub open spec fn submission_outcome(
    current: u128,
    claimed_nonce: Seq<char>,
    message: Seq<u8>,
    signature: Seq<char>,
    key: Option<Seq<u8>>,
) -> VerificationOutcome {
    if claimed_nonce != nonce_text(current) {
        VerificationOutcome::NonceMismatch
    } else {
        match key {
            None => VerificationOutcome::KeyUnavailable,
            Some(k) => signature_outcome(message, signature, k),
        }
    }
}

/// The outcome of a verification request while `current` is the challenge.
pub open spec fn request_outcome(
    current: u128,
    request: VerifyPayload,
    key: Result<PublicKey, KeyError>,
) -> VerificationOutcome {
    submission_outcome(
        current,
        request.payload.nonce@,
        encode_utf8(request.payload.message@),
        request.signature@,
        key_view(key),
    )
}

/// The verifier's state: the one current challenge. Concurrent callers share
/// it behind a single lock held for the whole of a submission, so that the
/// read, the comparison and the rotation form one critical section.
pub struct AppState {
    nonce: NonceAuthority,
}

impl View for AppState {
    type V = u128;

    closed spec fn view(&self) -> u128 {
        self.nonce@
    }
}

impl AppState {
    /// A state at startup, with a freshly drawn challenge.
    pub fn new() -> (r: AppState)
        ensures
            is_v4(r@),
    {
        AppState { nonce: NonceAuthority::new() }
    }

    /// A state whose current challenge is the given UUID value.
    pub fn with_nonce(value: u128) -> (r: AppState)
        ensures
            r@ == value,
    {
        AppState { nonce: NonceAuthority::from_value(value) }
    }

    /// The 128-bit value of the current challenge.
    pub fn nonce_value(&self) -> (r: u128)
        ensures
            r == self@,
    {
        self.nonce.value()
    }

    /// Issues the current challenge. Repeated calls give the same text until
    /// a verification succeeds.
    pub fn issue_challenge(&self) -> (r: String)
        ensures
            r@ == nonce_text(self@),
            r@.len() == 36,
    {
        self.nonce.current()
    }

    /// Evaluates a verification request against the current challenge, using
    /// the key that the key store yielded. On success the challenge is
    /// rotated; on any failure the state is left as it was.
    pub fn submit_verification(
        &mut self,
        request: &VerifyPayload,
        key: &Result<PublicKey, KeyError>,
    ) -> (r: VerificationOutcome)
        ensures
            r == request_outcome(old(self)@, *request, *key),
            r == VerificationOutcome::Verified ==> {
                &&& final(self)@ != old(self)@
                &&& is_v4(final(self)@)
                &&& nonce_text(final(self)@) != nonce_text(old(self)@)
            },
            r != VerificationOutcome::Verified ==> final(self)@ == old(self)@,
    {
        if !self.nonce.is_current(&request.payload.nonce) {
            return VerificationOutcome::NonceMismatch;
        }
        let k = match key {
            Ok(k) => k,
            Err(_) => {
                return VerificationOutcome::KeyUnavailable;
            },
        };
        let message: &[u8] = request.payload.message.as_str().as_bytes();
        let outcome = verify_signature(message, request.signature.as_str(), k);
        if outcome.is_verified() {
            self.nonce.rotate();
        }
        outcome
    }
}

} // verus!

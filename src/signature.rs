//! Checking a base64-encoded Ed25519 signature over a message.

use crate::key::{to_array, PublicKey};
use crate::outcome::VerificationOutcome;
use vstd::prelude::*;

verus! {

#[verifier::external_type_specification]
#[verifier::external_body]
pub struct ExDecodeError(base64::DecodeError);

/// The bytes that the standard, padded base64 alphabet decodes a text to,
/// or `None` where the text is not such an encoding.
pub uninterp spec fn base64_decoded(text: Seq<char>) -> Option<Seq<u8>>;

/// Whether ed25519-dalek accepts `signature` as a signature of `message`
/// under the verifying key with the given 32 bytes.
pub uninterp spec fn ed25519_accepts(key: Seq<u8>, message: Seq<u8>, signature: Seq<u8>) -> bool;

/// Relies on base64's `Engine::decode` with the `STANDARD` engine.
#[verifier::external_body]
fn decode_base64(text: &str) -> (r: Result<Vec<u8>, base64::DecodeError>)
    ensures
        match r {
            Ok(bytes) => base64_decoded(text@) == Some(bytes@),
            Err(_) => base64_decoded(text@) is None,
        },
{
    base64::Engine::decode(&base64::engine::general_purpose::STANDARD, text)
}

/// Relies on ed25519-dalek's `Verifier::verify` for `VerifyingKey`; the key
/// and the signature are brought into its types by their `from_bytes`.
#[verifier::external_body]
fn ed25519_verify(key: &[u8; 32], message: &[u8], signature: &[u8; 64]) -> (r: Result<
    (),
    ed25519_dalek::SignatureError,
>)
    ensures
        r is Ok == ed25519_accepts(key@, message@, signature@),
{
    match ed25519_dalek::VerifyingKey::from_bytes(key) {
        Ok(k) => ed25519_dalek::Verifier::verify(
            &k,
            message,
            &ed25519_dalek::Signature::from_bytes(signature),
        ),
        Err(e) => Err(e),
    }
}

/// The outcome of checking decoded signature bytes: they must be exactly
/// 64 bytes long, and then verify.
pub open spec fn decoded_outcome(message: Seq<u8>, decoded: Seq<u8>, key: Seq<u8>) -> VerificationOutcome {
    if decoded.len() != 64 {
        VerificationOutcome::InvalidEncoding
    } else if ed25519_accepts(key, message, decoded) {
        VerificationOutcome::Verified
    } else {
        VerificationOutcome::InvalidSignature
    }
}

/// The outcome of checking the base64 text of a signature.
pub open spec fn signature_outcome(message: Seq<u8>, encoding: Seq<char>, key: Seq<u8>) -> VerificationOutcome {
    match base64_decoded(encoding) {
        Some(decoded) => decoded_outcome(message, decoded, key),
        None => VerificationOutcome::InvalidEncoding,
    }
}

/// Checks signature bytes that are already decoded. Returns `Verified`,
/// `InvalidEncoding` or `InvalidSignature`.
pub fn verify_decoded(message: &[u8], decoded: &[u8], key: &PublicKey) -> (r: VerificationOutcome)
    ensures
        r == decoded_outcome(message@, decoded@, key@),
{
    if decoded.len() != 64 {
        return VerificationOutcome::InvalidEncoding;
    }
    let signature: [u8; 64] = to_array(decoded);
    match ed25519_verify(key.as_bytes(), message, &signature) {
        Ok(()) => VerificationOutcome::Verified,
        Err(_) => VerificationOutcome::InvalidSignature,
    }
}

/// Decodes the base64 text of a signature and checks it against the message
/// and the key. It has no side effects.
pub fn verify_signature(message: &[u8], signature_encoding: &str, key: &PublicKey) -> (r: VerificationOutcome)
    ensures
        r == signature_outcome(message@, signature_encoding@, key@),
{
    match decode_base64(signature_encoding) {
        Ok(decoded) => verify_decoded(message, decoded.as_slice(), key),
        Err(_) => VerificationOutcome::InvalidEncoding,
    }
}

} // verus!

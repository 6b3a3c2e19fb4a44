//! The verifier's one public key, validated once when it is loaded.

use vstd::prelude::*;

verus! {

#[verifier::external_type_specification]
#[verifier::external_body]
pub struct ExSignatureError(ed25519_dalek::SignatureError);

/// Whether 32 bytes are the compressed encoding of a point of the Ed25519
/// curve, as ed25519-dalek decompresses it.
pub uninterp spec fn ed25519_key_valid(bytes: Seq<u8>) -> bool;

/// Relies on ed25519-dalek's `VerifyingKey::from_bytes`: `Ok` exactly when
/// the bytes decompress to a curve point.
#[verifier::external_body]
fn check_key_point(bytes: &[u8; 32]) -> (r: Result<(), ed25519_dalek::SignatureError>)
    ensures
        r is Ok == ed25519_key_valid(bytes@),
{
    ed25519_dalek::VerifyingKey::from_bytes(bytes).map(|_key| ())
}

/// Why no verifying key is available.
#[derive(Clone, Copy, Debug, PartialEq, Eq, Structural)]
pub enum KeyError {
    /// The key material could not be read.
    Missing,
    /// The key material is not exactly 32 bytes long.
    WrongLength,
    /// The 32 bytes do not encode a curve point.
    MalformedPoint,
}

impl KeyError {
    /// A short description of the failure.
    pub fn message(&self) -> (r: &'static str)
        ensures
            r@ == key_error_text(*self),
    {
        match self {
            KeyError::Missing => "Key is unavailable.",
            KeyError::WrongLength => "Key is not 32 bytes.",
            KeyError::MalformedPoint => "Key is not a valid Ed25519 point.",
        }
    }
}

/// The description of each key failure.
pub open spec fn key_error_text(e: KeyError) -> Seq<char> {
    match e {
        KeyError::Missing => "Key is unavailable."@,
        KeyError::WrongLength => "Key is not 32 bytes."@,
        KeyError::MalformedPoint => "Key is not a valid Ed25519 point."@,
    }
}

/// What loading key material gives: the key, or the first check it fails.
pub open spec fn key_load_result(contents: Seq<u8>) -> Result<Seq<u8>, KeyError> {
    if contents.len() != 32 {
        Err(KeyError::WrongLength)
    } else if !ed25519_key_valid(contents) {
        Err(KeyError::MalformedPoint)
    } else {
        Ok(contents)
    }
}

/// Copies the first `N` bytes of a slice into an array.
pub(crate) fn to_array<const N: usize>(bytes: &[u8]) -> (r: [u8; N])
    requires
        bytes@.len() == N,
    ensures
        r@ == bytes@,
{
    let mut out = [0u8; N];
    let mut i: usize = 0;
    while i < N
        invariant
            i <= N,
            bytes@.len() == N,
            out@.len() == N,
            forall|j: int| 0 <= j < i ==> out@[j] == bytes@[j],
        decreases N - i,
    {
        out[i] = bytes[i];
        i = i + 1;
    }
    assert(out@ =~= bytes@);
    out
}

/// A verifying key: 32 bytes that encode a point of the Ed25519 curve.
#[derive(Clone, Copy, Debug)]
pub struct PublicKey {
    bytes: [u8; 32],
}

impl View for PublicKey {
    type V = Seq<u8>;

    closed spec fn view(&self) -> Seq<u8> {
        self.bytes@
    }
}

impl PublicKey {
    /// Every key holds 32 bytes that decode to a curve point.
    pub closed spec fn wf(&self) -> bool {
        &&& self.bytes@.len() == 32
        &&& ed25519_key_valid(self.bytes@)
    }

    /// Validates raw key material: exactly 32 bytes, decoding to a point.
    pub fn from_bytes(contents: &[u8]) -> (r: Result<PublicKey, KeyError>)
        ensures
            match (r, key_load_result(contents@)) {
                (Ok(k), Ok(b)) => k.wf() && k@ == b,
                (Err(e), Err(f)) => e == f,
                _ => false,
            },
    {
        if contents.len() != 32 {
            return Err(KeyError::WrongLength);
        }
        let bytes: [u8; 32] = to_array(contents);
        match check_key_point(&bytes) {
            Ok(()) => Ok(PublicKey { bytes }),
            Err(_) => Err(KeyError::MalformedPoint),
        }
    }

    /// The 32 bytes of the key.
    pub fn as_bytes(&self) -> (r: &[u8; 32])
        ensures
            r@ == self@,
    {
        &self.bytes
    }
}

} // verus!

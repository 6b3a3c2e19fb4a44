//! Properties of the protocol that hold for all inputs.

use crate::nonce::{hex_digit, hex_digits, is_v4, lemma_nonce_text_len, nonce_text, pow16};
use crate::outcome::VerificationOutcome;
use crate::protocol::submission_outcome;
use crate::signature::{base64_decoded, ed25519_accepts, signature_outcome};
use vstd::arithmetic::div_mod::lemma_div_denominator;
use vstd::prelude::*;

verus! {

/// A lowercase hexadecimal digit.
pub open spec fn is_lower_hex(c: char) -> bool {
    ('0' <= c && c <= '9') || ('a' <= c && c <= 'f')
}

/// The shape of a hyphenated UUID text: 36 characters, `-` at positions 8,
/// 13, 18 and 23, and a lowercase hexadecimal digit everywhere else.
pub open spec fn is_uuid_text(s: Seq<char>) -> bool {
    &&& s.len() == 36
    &&& forall|i: int|
        0 <= i < 36 ==> if i == 8 || i == 13 || i == 18 || i == 23 {
            #[trigger] s[i] == '-'
        } else {
            is_lower_hex(s[i])
        }
}

proof fn lemma_hex_digits_are_hex(v: nat, n: nat)
    ensures
        hex_digits(v, n).len() == n,
        forall|i: int| 0 <= i < n ==> is_lower_hex(#[trigger] hex_digits(v, n)[i]),
    decreases n,
{
    if n > 0 {
        lemma_hex_digits_are_hex(v / 16, (n - 1) as nat);
        let d = (v % 16) as int;
        assert(is_lower_hex(hex_digit(d)));
    }
}

/// Every challenge text is non-empty and has the hyphenated UUID shape.
pub proof fn law_challenge_text_is_well_formed(v: u128)
    ensures
        nonce_text(v).len() > 0,
        is_uuid_text(nonce_text(v)),
{
    lemma_nonce_text_len(v);
    lemma_hex_digits_are_hex(v as nat, 32);
    let d = hex_digits(v as nat, 32);
    let t = nonce_text(v);
    assert forall|i: int| 0 <= i < 36 implies if i == 8 || i == 13 || i == 18 || i == 23 {
        #[trigger] t[i] == '-'
    } else {
        is_lower_hex(t[i])
    } by {
        if i < 8 {
            assert(t[i] == d[i]);
        } else if 8 < i < 13 {
            assert(t[i] == d[i - 1]);
        } else if 13 < i < 18 {
            assert(t[i] == d[i - 2]);
        } else if 18 < i < 23 {
            assert(t[i] == d[i - 3]);
        } else if 23 < i {
            assert(t[i] == d[i - 4]);
        }
    }
}

proof fn lemma_pow16_positive(n: nat)
    ensures
        pow16(n) > 0,
    decreases n,
{
    if n > 0 {
        lemma_pow16_positive((n - 1) as nat);
    }
}

proof fn lemma_hex_digit_at(v: nat, n: nat, i: int)
    requires
        0 <= i < n,
    ensures
        hex_digits(v, n)[i] == hex_digit(((v / pow16((n - 1 - i) as nat)) % 16) as int),
    decreases n,
{
    lemma_hex_digits_are_hex(v / 16, (n - 1) as nat);
    let prefix = hex_digits(v / 16, (n - 1) as nat);
    assert(hex_digits(v, n) == prefix.push(hex_digit((v % 16) as int)));
    if i == n - 1 {
        assert(pow16(0) == 1);
        assert(v / pow16(0) == v);
        assert(hex_digits(v, n)[i] == hex_digit((v % 16) as int));
    } else {
        assert(hex_digits(v, n)[i] == prefix[i]);
        let k = (n - 2 - i) as nat;
        lemma_hex_digit_at(v / 16, (n - 1) as nat, i);
        lemma_pow16_positive(k);
        lemma_div_denominator(v as int, 16, pow16(k) as int);
        assert(pow16((n - 1 - i) as nat) == 16 * pow16(k));
        let q = v / pow16((n - 1 - i) as nat);
        assert(q == (v / 16) / pow16(k));
        assert(prefix[i] == hex_digit((((v / 16) / pow16(k)) % 16) as int));
    }
}

/// The text of a random (version 4) challenge shows its version digit `4`
/// and a variant digit among `8`, `9`, `a` and `b`.
pub proof fn law_fresh_challenge_shows_version(v: u128)
    requires
        is_v4(v),
    ensures
        nonce_text(v)[14] == '4',
        nonce_text(v)[19] == '8' || nonce_text(v)[19] == '9' || nonce_text(v)[19] == 'a'
            || nonce_text(v)[19] == 'b',
{
    lemma_nonce_text_len(v);
    lemma_hex_digits_are_hex(v as nat, 32);
    let d = hex_digits(v as nat, 32);
    let t = nonce_text(v);
    assert(t[14] == d[12]);
    assert(t[19] == d[16]);
    lemma_hex_digit_at(v as nat, 32, 12);
    lemma_hex_digit_at(v as nat, 32, 16);
    reveal_with_fuel(pow16, 20);
    assert(pow16(19) == 0x1000_0000_0000_0000_0000);
    assert(pow16(15) == 0x1000_0000_0000_0000);
    assert(is_v4(v) ==> (v / 0x1000_0000_0000_0000_0000u128) % 16 == 4) by (bit_vector);
    assert(is_v4(v) ==> 8 <= (v / 0x1000_0000_0000_0000u128) % 16 < 12) by (bit_vector);
}

/// Distinct challenge values never share a text, so a rotated challenge
/// never reads as the one it replaced.
pub proof fn law_rotated_challenge_differs(old_value: u128, new_value: u128)
    requires
        old_value != new_value,
    ensures
        nonce_text(old_value) != nonce_text(new_value),
{
    crate::nonce::lemma_nonce_text_injective(old_value, new_value);
}

/// A submission that carries the current challenge and a signature that
/// decodes to 64 bytes which verify under the key is verified.
pub proof fn law_valid_signature_on_current_nonce_verifies(
    current: u128,
    message: Seq<u8>,
    signature: Seq<char>,
    decoded: Seq<u8>,
    key: Seq<u8>,
)
    requires
        base64_decoded(signature) == Some(decoded),
        decoded.len() == 64,
        ed25519_accepts(key, message, decoded),
    ensures
        submission_outcome(current, nonce_text(current), message, signature, Some(key))
            == VerificationOutcome::Verified,
{
}

/// A submission whose nonce is not the current challenge is a nonce
/// mismatch, whatever its message, signature and key.
pub proof fn law_stale_nonce_is_mismatch(
    current: u128,
    claimed: Seq<char>,
    message: Seq<u8>,
    signature: Seq<char>,
    key: Option<Seq<u8>>,
)
    requires
        claimed != nonce_text(current),
    ensures
        submission_outcome(current, claimed, message, signature, key)
            == VerificationOutcome::NonceMismatch,
{
}

/// A signature that decodes to any length other than 64 bytes is an encoding
/// error, before any cryptographic check.
pub proof fn law_wrong_length_is_invalid_encoding(
    current: u128,
    message: Seq<u8>,
    signature: Seq<char>,
    decoded: Seq<u8>,
    key: Seq<u8>,
)
    requires
        base64_decoded(signature) == Some(decoded),
        decoded.len() != 64,
    ensures
        signature_outcome(message, signature, key) == VerificationOutcome::InvalidEncoding,
        submission_outcome(current, nonce_text(current), message, signature, Some(key))
            == VerificationOutcome::InvalidEncoding,
{
}

/// A well-encoded 64-byte signature that does not verify under the key (a
/// wrong signing key, or a changed message) is an invalid signature.
pub proof fn law_rejected_signature_is_invalid(
    current: u128,
    message: Seq<u8>,
    signature: Seq<char>,
    decoded: Seq<u8>,
    key: Seq<u8>,
)
    requires
        base64_decoded(signature) == Some(decoded),
        decoded.len() == 64,
        !ed25519_accepts(key, message, decoded),
    ensures
        signature_outcome(message, signature, key) == VerificationOutcome::InvalidSignature,
        submission_outcome(current, nonce_text(current), message, signature, Some(key))
            == VerificationOutcome::InvalidSignature,
{
}

} // verus!

use base64::Engine;
use ed25519_dalek::{Signer, SigningKey};
use nonce_auth::client::{Endpoint, Payload, VerifyPayload};
use nonce_auth::key::{KeyError, PublicKey};
use nonce_auth::nonce::NonceAuthority;
use nonce_auth::outcome::VerificationOutcome;
use nonce_auth::protocol::AppState;
use nonce_auth::signature::{verify_decoded, verify_signature};

fn signing_key(seed: u8) -> SigningKey {
    SigningKey::from_bytes(&[seed; 32])
}

fn public_key_of(sk: &SigningKey) -> PublicKey {
    PublicKey::from_bytes(sk.verifying_key().as_bytes()).unwrap()
}

fn encode(bytes: &[u8]) -> String {
    base64::engine::general_purpose::STANDARD.encode(bytes)
}

fn signed_request(sk: &SigningKey, message: &str, nonce: &str) -> VerifyPayload {
    let signature = sk.sign(message.as_bytes()).to_bytes();
    VerifyPayload {
        payload: Payload { message: message.to_string(), nonce: nonce.to_string() },
        signature: encode(&signature),
    }
}

fn is_lower_hex(c: char) -> bool {
    c.is_ascii_digit() || ('a'..='f').contains(&c)
}

#[test]
fn endpoint_routes() {
    assert_eq!(Endpoint::Nonce.value(), "/nonce");
    assert_eq!(Endpoint::Verify.value(), "/verify");
}

#[test]
fn fresh_challenge_is_well_formed_and_stable() {
    let state = AppState::new();
    let first = state.issue_challenge();
    let second = state.issue_challenge();
    assert_eq!(first, second);
    assert_eq!(first.len(), 36);
    for (i, c) in first.chars().enumerate() {
        if i == 8 || i == 13 || i == 18 || i == 23 {
            assert_eq!(c, '-');
        } else {
            assert!(is_lower_hex(c));
        }
    }
    assert_eq!(first.chars().nth(14), Some('4'));
}

#[test]
fn challenge_text_of_known_value() {
    let state = AppState::with_nonce(0x67e5_5044_10b1_426f_9247_bb68_0e5f_e0c8);
    assert_eq!(state.issue_challenge(), "67e55044-10b1-426f-9247-bb680e5fe0c8");
    let zero = AppState::with_nonce(0);
    assert_eq!(zero.issue_challenge(), "00000000-0000-0000-0000-000000000000");
}

#[test]
fn signed_hello_world_verifies_once() {
    let sk = signing_key(7);
    let key = Ok(public_key_of(&sk));
    let mut state = AppState::new();
    let n1 = state.issue_challenge();
    let request = signed_request(&sk, "Hello world!", &n1);
    assert_eq!(state.submit_verification(&request, &key), VerificationOutcome::Verified);
    let n2 = state.issue_challenge();
    assert_ne!(n1, n2);
    assert_eq!(state.submit_verification(&request, &key), VerificationOutcome::NonceMismatch);
    assert_eq!(state.issue_challenge(), n2);
}

#[test]
fn wrong_nonce_is_mismatch_whatever_the_signature() {
    let sk = signing_key(7);
    let key = Ok(public_key_of(&sk));
    let mut state = AppState::with_nonce(42);
    let before = state.issue_challenge();
    let good = signed_request(&sk, "Hello world!", "not-the-current-value");
    assert_eq!(state.submit_verification(&good, &key), VerificationOutcome::NonceMismatch);
    let mut garbage = good.clone();
    garbage.signature = "@@@".to_string();
    assert_eq!(state.submit_verification(&garbage, &key), VerificationOutcome::NonceMismatch);
    let no_key = Err(KeyError::Missing);
    assert_eq!(state.submit_verification(&good, &no_key), VerificationOutcome::NonceMismatch);
    assert_eq!(state.issue_challenge(), before);
}

#[test]
fn signature_of_63_bytes_is_invalid_encoding() {
    let sk = signing_key(7);
    let key = Ok(public_key_of(&sk));
    let mut state = AppState::new();
    let nonce = state.issue_challenge();
    let full = sk.sign(b"Hello world!").to_bytes();
    let request = VerifyPayload {
        payload: Payload { message: "Hello world!".to_string(), nonce: nonce.clone() },
        signature: encode(&full[..63]),
    };
    assert_eq!(state.submit_verification(&request, &key), VerificationOutcome::InvalidEncoding);
    assert_eq!(state.issue_challenge(), nonce);
}

#[test]
fn signature_of_65_bytes_is_invalid_encoding() {
    let sk = signing_key(7);
    let key = public_key_of(&sk);
    let mut padded = sk.sign(b"Hello world!").to_bytes().to_vec();
    padded.push(0);
    assert_eq!(
        verify_signature(b"Hello world!", &encode(&padded), &key),
        VerificationOutcome::InvalidEncoding
    );
    assert_eq!(verify_decoded(b"Hello world!", &padded, &key), VerificationOutcome::InvalidEncoding);
    assert_eq!(verify_decoded(b"Hello world!", &padded[..64], &key), VerificationOutcome::Verified);
}

#[test]
fn text_that_is_not_base64_is_invalid_encoding() {
    let key = public_key_of(&signing_key(7));
    assert_eq!(verify_signature(b"Hello world!", "not base64!", &key), VerificationOutcome::InvalidEncoding);
    assert_eq!(verify_signature(b"Hello world!", "", &key), VerificationOutcome::InvalidEncoding);
}

#[test]
fn wrong_key_is_invalid_signature() {
    let signer = signing_key(7);
    let other = Ok(public_key_of(&signing_key(8)));
    let mut state = AppState::new();
    let nonce = state.issue_challenge();
    let request = signed_request(&signer, "Hello world!", &nonce);
    assert_eq!(state.submit_verification(&request, &other), VerificationOutcome::InvalidSignature);
    assert_eq!(state.issue_challenge(), nonce);
}

#[test]
fn tampered_message_is_invalid_signature() {
    let sk = signing_key(7);
    let key = Ok(public_key_of(&sk));
    let mut state = AppState::new();
    let nonce = state.issue_challenge();
    let mut request = signed_request(&sk, "Hello world!", &nonce);
    request.payload.message = "Hello world?".to_string();
    assert_eq!(state.submit_verification(&request, &key), VerificationOutcome::InvalidSignature);
}

#[test]
fn zeroed_signature_is_invalid_signature() {
    let key = public_key_of(&signing_key(7));
    assert_eq!(verify_decoded(b"Hello world!", &[0u8; 64], &key), VerificationOutcome::InvalidSignature);
}

#[test]
fn missing_key_is_key_unavailable() {
    let sk = signing_key(7);
    let mut state = AppState::new();
    let nonce = state.issue_challenge();
    let request = signed_request(&sk, "Hello world!", &nonce);
    assert_eq!(
        state.submit_verification(&request, &Err(KeyError::Missing)),
        VerificationOutcome::KeyUnavailable
    );
    assert_eq!(state.issue_challenge(), nonce);
}

#[test]
fn key_material_is_validated() {
    assert_eq!(PublicKey::from_bytes(&[1u8; 31]).unwrap_err(), KeyError::WrongLength);
    assert_eq!(PublicKey::from_bytes(&[1u8; 33]).unwrap_err(), KeyError::WrongLength);
    assert_eq!(PublicKey::from_bytes(&[]).unwrap_err(), KeyError::WrongLength);
    let mut not_a_point = [0u8; 32];
    not_a_point[0] = 2;
    assert_eq!(PublicKey::from_bytes(&not_a_point).unwrap_err(), KeyError::MalformedPoint);
    let sk = signing_key(3);
    let bytes = *sk.verifying_key().as_bytes();
    assert_eq!(PublicKey::from_bytes(&bytes).unwrap().as_bytes(), &bytes);
}

#[test]
fn key_error_messages() {
    assert_eq!(KeyError::WrongLength.message(), "Key is not 32 bytes.");
    assert_eq!(KeyError::MalformedPoint.message(), "Key is not a valid Ed25519 point.");
    assert_eq!(KeyError::Missing.message(), "Key is unavailable.");
}

#[test]
fn outcomes_map_to_status_and_text() {
    assert_eq!(VerificationOutcome::Verified.status_code(), 200);
    assert_eq!(VerificationOutcome::Verified.message(), "Signature is valid.");
    assert_eq!(VerificationOutcome::NonceMismatch.status_code(), 400);
    assert_eq!(VerificationOutcome::NonceMismatch.message(), "Invalid nonce.");
    assert_eq!(VerificationOutcome::InvalidEncoding.status_code(), 400);
    assert_eq!(VerificationOutcome::InvalidSignature.status_code(), 400);
    assert_eq!(VerificationOutcome::InvalidSignature.message(), "Invalid signature.");
    assert_eq!(VerificationOutcome::KeyUnavailable.status_code(), 500);
    assert!(VerificationOutcome::Verified.is_verified());
    assert!(!VerificationOutcome::InvalidSignature.is_verified());
}

#[test]
fn each_success_rotates_to_a_new_challenge() {
    let sk = signing_key(9);
    let key = Ok(public_key_of(&sk));
    let mut state = AppState::with_nonce(5);
    let mut seen: Vec<String> = Vec::new();
    for _ in 0..4 {
        let nonce = state.issue_challenge();
        assert!(!seen.contains(&nonce));
        seen.push(nonce.clone());
        let request = signed_request(&sk, "Hello world!", &nonce);
        assert_eq!(state.submit_verification(&request, &key), VerificationOutcome::Verified);
        assert_ne!(state.nonce_value(), 5);
    }
}

#[test]
fn authority_rotation_and_binding() {
    let mut authority = NonceAuthority::from_value(1);
    let old = authority.current();
    assert_eq!(old, "00000000-0000-0000-0000-000000000001");
    assert!(authority.is_current(&old));
    assert!(!authority.is_current(&old.to_uppercase().replace('-', "")));
    let new = authority.rotate();
    assert_ne!(new, old);
    assert_eq!(authority.current(), new);
    assert!(!authority.is_current(&old));
    assert!(authority.is_current(&new));
    assert_eq!(new.chars().nth(14), Some('4'));
}

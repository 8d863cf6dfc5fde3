//! Tests of the authenticated-symmetric path, against the real AES-256-GCM
//! implementation.

use aes_gcm::aead::Aead;
use aes_gcm::KeyInit;

use unseal::aead::aes_gcm_256_decrypt_and_verify_as_utf8;
use unseal::aead::encrypt_utf8;
use unseal::errors::DecryptError;

fn gcm_encrypt(key: &[u8], nonce: &[u8], plaintext: &[u8]) -> Vec<u8> {
    let cipher = aes_gcm::Aes256Gcm::new(key.try_into().unwrap());
    cipher.encrypt(nonce.try_into().unwrap(), plaintext).unwrap()
}

const KEY: [u8; 32] = [7u8; 32];
const NONCE: [u8; 12] = [9u8; 12];

#[test]
fn round_trip_ascii() {
    let blob = gcm_encrypt(&KEY, &NONCE, b"attack at dawn");
    let got = aes_gcm_256_decrypt_and_verify_as_utf8(&KEY, &NONCE, &blob);
    assert_eq!(got, Ok(String::from("attack at dawn")));
}

#[test]
fn round_trip_multibyte_text() {
    let text = "p\u{e5}ssw\u{f8}rd \u{2603} \u{1f511}";
    let blob = gcm_encrypt(&KEY, &NONCE, text.as_bytes());
    let got = aes_gcm_256_decrypt_and_verify_as_utf8(&KEY, &NONCE, &blob);
    assert_eq!(got, Ok(String::from(text)));
}

#[test]
fn round_trip_empty_text() {
    let blob = gcm_encrypt(&KEY, &NONCE, b"");
    let got = aes_gcm_256_decrypt_and_verify_as_utf8(&KEY, &NONCE, &blob);
    assert_eq!(got, Ok(String::new()));
}

#[test]
fn round_trip_through_library_encrypt() {
    let blob = encrypt_utf8(&KEY, &NONCE, "a secret worth keeping").unwrap();
    let got = aes_gcm_256_decrypt_and_verify_as_utf8(&KEY, &NONCE, &blob);
    assert_eq!(got, Ok(String::from("a secret worth keeping")));
}

#[test]
fn library_encrypt_matches_reference_encrypt() {
    let blob = encrypt_utf8(&KEY, &NONCE, "same bytes").unwrap();
    let reference = gcm_encrypt(&KEY, &NONCE, b"same bytes");
    assert_eq!(blob, reference);
}

#[test]
fn tamper_any_single_bit_fails_authentication() {
    let blob = gcm_encrypt(&KEY, &NONCE, b"integrity matters");
    for i in 0..blob.len() {
        for bit in 0..8 {
            let mut tampered = blob.clone();
            tampered[i] ^= 1u8 << bit;
            let got = aes_gcm_256_decrypt_and_verify_as_utf8(&KEY, &NONCE, &tampered);
            assert_eq!(got, Err(DecryptError::AuthenticationFailed));
        }
    }
}

#[test]
fn wrong_key_and_wrong_nonce_fail_identically() {
    let blob = gcm_encrypt(&KEY, &NONCE, b"opaque failure");
    let mut wrong_key = KEY;
    wrong_key[0] ^= 1;
    let mut wrong_nonce = NONCE;
    wrong_nonce[11] ^= 1;
    let with_wrong_key = aes_gcm_256_decrypt_and_verify_as_utf8(&wrong_key, &NONCE, &blob);
    let with_wrong_nonce = aes_gcm_256_decrypt_and_verify_as_utf8(&KEY, &wrong_nonce, &blob);
    assert_eq!(with_wrong_key, with_wrong_nonce);
    assert_eq!(with_wrong_key, Err(DecryptError::AuthenticationFailed));
}

#[test]
fn empty_ciphertext_fails_authentication() {
    let got = aes_gcm_256_decrypt_and_verify_as_utf8(&KEY, &NONCE, &[]);
    assert_eq!(got, Err(DecryptError::AuthenticationFailed));
}

#[test]
fn key_of_31_bytes_rejected() {
    let blob = gcm_encrypt(&KEY, &NONCE, b"never reached");
    let got = aes_gcm_256_decrypt_and_verify_as_utf8(&[0u8; 31], &NONCE, &blob);
    assert_eq!(got, Err(DecryptError::BadKeyLength));
}

#[test]
fn key_of_33_bytes_rejected() {
    let got = aes_gcm_256_decrypt_and_verify_as_utf8(&[0u8; 33], &NONCE, &[]);
    assert_eq!(got, Err(DecryptError::BadKeyLength));
}

#[test]
fn nonce_of_11_bytes_rejected() {
    let blob = gcm_encrypt(&KEY, &NONCE, b"never reached");
    let got = aes_gcm_256_decrypt_and_verify_as_utf8(&KEY, &[0u8; 11], &blob);
    assert_eq!(got, Err(DecryptError::BadNonceLength));
}

#[test]
fn nonce_of_13_bytes_rejected_even_for_empty_ciphertext() {
    let got = aes_gcm_256_decrypt_and_verify_as_utf8(&KEY, &[0u8; 13], &[]);
    assert_eq!(got, Err(DecryptError::BadNonceLength));
}

#[test]
fn authentic_non_utf8_bytes_rejected_as_decoding_failure() {
    // A lone UTF-8 continuation byte: authentication succeeds, decoding fails.
    let blob = gcm_encrypt(&KEY, &NONCE, &[0x80u8]);
    let got = aes_gcm_256_decrypt_and_verify_as_utf8(&KEY, &NONCE, &blob);
    assert_eq!(got, Err(DecryptError::InvalidUtf8));
}

#[test]
fn authentic_truncated_multibyte_sequence_rejected() {
    // The first byte of a two-byte sequence with nothing after it.
    let blob = gcm_encrypt(&KEY, &NONCE, &[b'o', b'k', 0xC3u8]);
    let got = aes_gcm_256_decrypt_and_verify_as_utf8(&KEY, &NONCE, &blob);
    assert_eq!(got, Err(DecryptError::InvalidUtf8));
}

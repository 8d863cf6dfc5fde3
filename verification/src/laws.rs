//! The laws of the symmetric decryption path, stated over
//! [`symmetric_decrypt_model`] — the model every executable function of
//! that path is proved against.

use vstd::prelude::*;

use crate::aead::aes_256_gcm_decrypt_of;
use crate::aead::symmetric_decrypt_model;
use crate::errors::DecryptError;
use vstd::utf8::valid_utf8;

verus! {

/// A key or nonce of the wrong size is rejected with the matching length
/// failure, for every ciphertext alike — including the empty one — before
/// any cryptographic work: the outcome never consults what decryption
/// would return.
pub proof fn lemma_length_mismatch_rejected(key: Seq<u8>, nonce: Seq<u8>, ciphertext: Seq<u8>)
    requires
        key.len() != 32 || nonce.len() != 12,
    ensures
        symmetric_decrypt_model(key, nonce, ciphertext) == if key.len() != 32 {
            Result::<Seq<char>, DecryptError>::Err(DecryptError::BadKeyLength)
        } else {
            Result::<Seq<char>, DecryptError>::Err(DecryptError::BadNonceLength)
        },
{
}

/// Authentication failure is uniform: any two well-sized inputs whose
/// tags fail to verify — a tampered ciphertext, a wrong key, a wrong
/// nonce — end in the very same failure value, so the outcome reveals
/// nothing about which part was wrong.
pub proof fn lemma_auth_failure_uniform(
    key1: Seq<u8>,
    nonce1: Seq<u8>,
    ciphertext1: Seq<u8>,
    key2: Seq<u8>,
    nonce2: Seq<u8>,
    ciphertext2: Seq<u8>,
)
    requires
        key1.len() == 32,
        nonce1.len() == 12,
        key2.len() == 32,
        nonce2.len() == 12,
        aes_256_gcm_decrypt_of(key1, nonce1, ciphertext1) is None,
        aes_256_gcm_decrypt_of(key2, nonce2, ciphertext2) is None,
    ensures
        symmetric_decrypt_model(key1, nonce1, ciphertext1) == symmetric_decrypt_model(
            key2,
            nonce2,
            ciphertext2,
        ),
        symmetric_decrypt_model(key1, nonce1, ciphertext1) == Result::<
            Seq<char>,
            DecryptError,
        >::Err(DecryptError::AuthenticationFailed),
{
}

/// When the tag verifies but the recovered bytes are not valid UTF-8, the
/// outcome is the decoding failure — distinct from authentication
/// failure, since it arises strictly after successful verification — and
/// never a success carrying garbage text.
pub proof fn lemma_non_utf8_rejected(key: Seq<u8>, nonce: Seq<u8>, ciphertext: Seq<u8>)
    requires
        key.len() == 32,
        nonce.len() == 12,
        aes_256_gcm_decrypt_of(key, nonce, ciphertext) is Some,
        !valid_utf8(aes_256_gcm_decrypt_of(key, nonce, ciphertext)->Some_0),
    ensures
        symmetric_decrypt_model(key, nonce, ciphertext) == Result::<Seq<char>, DecryptError>::Err(
            DecryptError::InvalidUtf8,
        ),
{
}

/// All-or-nothing: a successful outcome exists exactly when the tag
/// verified and the recovered bytes decode as UTF-8, and it carries that
/// decoding whole — there is no outcome with partial or unauthenticated
/// plaintext.
pub proof fn lemma_success_exactly_on_authentic_utf8(
    key: Seq<u8>,
    nonce: Seq<u8>,
    ciphertext: Seq<u8>,
)
    ensures
        symmetric_decrypt_model(key, nonce, ciphertext) is Ok <==> key.len() == 32 && nonce.len()
            == 12 && aes_256_gcm_decrypt_of(key, nonce, ciphertext) is Some && valid_utf8(
            aes_256_gcm_decrypt_of(key, nonce, ciphertext)->Some_0,
        ),
        symmetric_decrypt_model(key, nonce, ciphertext) is Ok
            ==> symmetric_decrypt_model(key, nonce, ciphertext)->Ok_0 == vstd::utf8::decode_utf8(
            aes_256_gcm_decrypt_of(key, nonce, ciphertext)->Some_0,
        ),
{
}

} // verus!

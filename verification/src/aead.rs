//! The authenticated-symmetric path: AES-256-GCM decryption of a
//! ciphertext-plus-tag blob with a caller-supplied 32-byte key and
//! 12-byte nonce, followed by UTF-8 decoding of the recovered bytes.

use vstd::prelude::*;

use aes_gcm::aead::Aead;
use aes_gcm::KeyInit;

use crate::errors::DecryptError;
use vstd::utf8::decode_utf8;
use vstd::utf8::encode_utf8;
use vstd::utf8::encode_utf8_decode_utf8;
use vstd::utf8::encode_utf8_valid_utf8;
use vstd::utf8::valid_utf8;

verus! {

/// What AES-256-GCM decryption-with-verification returns for a given key,
/// nonce and ciphertext-plus-tag blob: `Some` of the recovered plaintext
/// bytes when the authentication tag verifies, `None` otherwise. The
/// algorithm is deterministic, a function of these three inputs alone.
pub uninterp spec fn aes_256_gcm_decrypt_of(
    key: Seq<u8>,
    nonce: Seq<u8>,
    ciphertext: Seq<u8>,
) -> Option<Seq<u8>>;

/// Relies on aes_gcm::Aes256Gcm (via aead::Aead::decrypt): combined
/// decryption and tag verification, deterministic in key, nonce and
/// ciphertext; it returns `Err` exactly when the tag does not verify.
#[verifier::external_body]
fn aes_256_gcm_decrypt(key: &[u8], nonce: &[u8], ciphertext: &[u8]) -> (r: Option<Vec<u8>>)
    requires
        key@.len() == 32,
        nonce@.len() == 12,
    ensures
        r is Some <==> aes_256_gcm_decrypt_of(key@, nonce@, ciphertext@) is Some,
        r is Some ==> r.unwrap()@ == aes_256_gcm_decrypt_of(key@, nonce@, ciphertext@).unwrap(),
{
    let cipher = aes_gcm::Aes256Gcm::new(key.try_into().unwrap());
    cipher.decrypt(nonce.try_into().unwrap(), ciphertext).ok()
}

/// Relies on aes_gcm::Aes256Gcm (via aead::Aead::encrypt): when it
/// succeeds, the ciphertext-plus-tag blob it returns is exactly what
/// decryption with the same key and nonce accepts and inverts — the
/// defining round-trip guarantee of the AEAD construction. It refuses
/// only a plaintext over the AES-GCM length limit of 2^36 - 32 bytes.
#[verifier::external_body]
fn aes_256_gcm_encrypt(key: &[u8], nonce: &[u8], plaintext: &[u8]) -> (r: Option<Vec<u8>>)
    requires
        key@.len() == 32,
        nonce@.len() == 12,
    ensures
        r is Some ==> aes_256_gcm_decrypt_of(key@, nonce@, r.unwrap()@) == Some(plaintext@),
        plaintext@.len() <= 0xF_FFFF_FFE0 ==> r is Some,
{
    let cipher = aes_gcm::Aes256Gcm::new(key.try_into().unwrap());
    cipher.encrypt(nonce.try_into().unwrap(), plaintext).ok()
}

/// Relies on String::from_utf8: it returns `Ok` exactly when the bytes
/// are valid UTF-8, and the string then holds those bytes decoded.
#[verifier::external_body]
fn utf8_decode(bytes: Vec<u8>) -> (r: Option<String>)
    ensures
        r is Some <==> valid_utf8(bytes@),
        r is Some ==> r.unwrap()@ == decode_utf8(bytes@),
{
    String::from_utf8(bytes).ok()
}

/// The whole symmetric path as one mathematical function: length
/// validation first, then authenticated decryption, then UTF-8 decoding.
/// Exactly one of the four outcomes applies to any input.
pub open spec fn symmetric_decrypt_model(
    key: Seq<u8>,
    nonce: Seq<u8>,
    ciphertext: Seq<u8>,
) -> Result<Seq<char>, DecryptError> {
    if key.len() != 32 {
        Result::Err(DecryptError::BadKeyLength)
    } else if nonce.len() != 12 {
        Result::Err(DecryptError::BadNonceLength)
    } else {
        match aes_256_gcm_decrypt_of(key, nonce, ciphertext) {
            Option::None => Result::Err(DecryptError::AuthenticationFailed),
            Option::Some(recovered) => if valid_utf8(recovered) {
                Result::Ok(decode_utf8(recovered))
            } else {
                Result::Err(DecryptError::InvalidUtf8)
            },
        }
    }
}

/// Decrypts and authenticates `ciphertext` (tag appended, as the standard
/// construction produces it) with a 32-byte key and a 12-byte nonce, and
/// decodes the recovered bytes as UTF-8 text. All-or-nothing: the text is
/// returned only when the tag verified and the bytes decode; every other
/// input gets the typed failure that `symmetric_decrypt_model` assigns it.
pub fn aes_gcm_256_decrypt_and_verify_as_utf8(
    key: &[u8],
    nonce: &[u8],
    ciphertext: &[u8],
) -> (r: Result<String, DecryptError>)
    ensures
        r is Ok <==> symmetric_decrypt_model(key@, nonce@, ciphertext@) is Ok,
        r is Ok ==> r.unwrap()@ == symmetric_decrypt_model(key@, nonce@, ciphertext@)->Ok_0,
        r is Err ==> r.unwrap_err() == symmetric_decrypt_model(key@, nonce@, ciphertext@)->Err_0,
{
    if key.len() != 32 {
        return Result::Err(DecryptError::BadKeyLength);
    }
    if nonce.len() != 12 {
        return Result::Err(DecryptError::BadNonceLength);
    }
    match aes_256_gcm_decrypt(key, nonce, ciphertext) {
        Option::None => Result::Err(DecryptError::AuthenticationFailed),
        Option::Some(recovered) => match utf8_decode(recovered) {
            Option::None => Result::Err(DecryptError::InvalidUtf8),
            Option::Some(text) => Result::Ok(text),
        },
    }
}

/// Round trip: encrypting a UTF-8 text with a 32-byte key and a 12-byte
/// nonce and handing the resulting blob to the symmetric decryption path
/// with the same key and nonce yields the original text exactly. A blob
/// is owed whenever the sizes are right and the encoded text is within
/// the cipher's length limit; `None` otherwise.
pub fn encrypt_utf8(key: &[u8], nonce: &[u8], text: &str) -> (r: Option<Vec<u8>>)
    ensures
        r is Some ==> key@.len() == 32 && nonce@.len() == 12 && symmetric_decrypt_model(
            key@,
            nonce@,
            r.unwrap()@,
        ) == Result::<Seq<char>, DecryptError>::Ok(text@),
        key@.len() == 32 && nonce@.len() == 12 && encode_utf8(text@).len() <= 0xF_FFFF_FFE0
            ==> r is Some,
{
    if key.len() != 32 || nonce.len() != 12 {
        return Option::None;
    }
    let blob = aes_256_gcm_encrypt(key, nonce, text.as_bytes());
    proof {
        if blob is Some {
            encode_utf8_valid_utf8(text@);
            encode_utf8_decode_utf8(text@);
        }
    }
    blob
}

} // verus!

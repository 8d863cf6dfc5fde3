//! One abstraction over the two decryption variants: "decrypt this blob,
//! return plaintext or a typed failure". The symmetric variant completes
//! immediately; the platform variant needs the caller to perform the one
//! OS call this library cannot make itself, and then resumes.

use vstd::prelude::*;

use crate::aead::aes_gcm_256_decrypt_and_verify_as_utf8;
use crate::aead::symmetric_decrypt_model;
use crate::errors::DecryptError;
use crate::unprotect::event_bytes;
use crate::unprotect::interpret_unprotect_event;
use crate::unprotect::unprotect_model;
use crate::unprotect::PlatformUnprotectEvent;

verus! {

/// A decryption request: which primitive to use, with the secret material
/// that primitive needs. The blob itself is passed alongside.
pub enum DecryptRequest {
    /// Open the blob with the platform's protected-data facility; no
    /// caller-supplied key.
    PlatformUnprotect,
    /// Decrypt and authenticate the blob with this 256-bit key and 96-bit
    /// nonce, and decode the result as UTF-8 text.
    AuthenticatedSymmetric { key: Vec<u8>, nonce: Vec<u8> },
}

/// Recovered plaintext. The platform path yields raw bytes; the symmetric
/// path yields text, since UTF-8 decoding is part of its contract.
pub enum Plaintext {
    Bytes(Vec<u8>),
    Text(String),
}

/// The state of one decryption call after this library has done all the
/// work it can do on its own.
pub enum DecryptStep {
    /// The caller must hand the blob to the OS unprotect facility (with
    /// every optional feature disabled) and report the outcome to
    /// [`finish_platform_unprotect`].
    AwaitingPlatform(Vec<u8>),
    /// The call is complete.
    Done(Result<Plaintext, DecryptError>),
}

/// Runs a request as far as this library can by itself. A symmetric
/// request is decided completely, to exactly what the symmetric model
/// assigns it; a platform request hands the blob back untouched, to be
/// given to the OS facility.
pub fn decrypt(request: &DecryptRequest, blob: Vec<u8>) -> (step: DecryptStep)
    ensures
        match request {
            DecryptRequest::PlatformUnprotect => step matches DecryptStep::AwaitingPlatform(b)
                && b@ == blob@,
            DecryptRequest::AuthenticatedSymmetric { key, nonce } => step matches DecryptStep::Done(
                r,
            ) && (match r {
                Result::Ok(p) => p matches Plaintext::Text(t) && symmetric_decrypt_model(
                    key@,
                    nonce@,
                    blob@,
                ) == Result::<Seq<char>, DecryptError>::Ok(t@),
                Result::Err(e) => symmetric_decrypt_model(key@, nonce@, blob@) == Result::<
                    Seq<char>,
                    DecryptError,
                >::Err(e),
            }),
        },
{
    match request {
        DecryptRequest::PlatformUnprotect => DecryptStep::AwaitingPlatform(blob),
        DecryptRequest::AuthenticatedSymmetric { key, nonce } => {
            match aes_gcm_256_decrypt_and_verify_as_utf8(
                key.as_slice(),
                nonce.as_slice(),
                blob.as_slice(),
            ) {
                Result::Ok(text) => DecryptStep::Done(Result::Ok(Plaintext::Text(text))),
                Result::Err(e) => DecryptStep::Done(Result::Err(e)),
            }
        },
    }
}

/// Completes a platform-unprotect request from the caller's report of the
/// OS call: the platform's bytes pass through whole, a refusal becomes
/// the one generic failure.
pub fn finish_platform_unprotect(event: PlatformUnprotectEvent) -> (r: Result<
    Plaintext,
    DecryptError,
>)
    ensures
        match r {
            Result::Ok(p) => p matches Plaintext::Bytes(b) && unprotect_model(event_bytes(event))
                == Result::<Seq<u8>, DecryptError>::Ok(b@),
            Result::Err(e) => unprotect_model(event_bytes(event)) == Result::<
                Seq<u8>,
                DecryptError,
            >::Err(e),
        },
{
    match interpret_unprotect_event(event) {
        Result::Ok(bytes) => Result::Ok(Plaintext::Bytes(bytes)),
        Result::Err(e) => Result::Err(e),
    }
}

} // verus!

//! The failure taxonomy shared by both decryption paths.

use vstd::prelude::*;

verus! {

/// Every way a decryption call can fail. Each variant is distinguishable,
/// so a caller can tell a mis-sized key from tampered data, but a wrong
/// key and a wrong nonce deliberately share one variant
/// (`AuthenticationFailed`): authenticated decryption must not reveal
/// which part of the secret material was wrong.
#[derive(Clone, Copy, Debug, PartialEq, Eq, Structural)]
pub enum DecryptError {
    /// The caller-supplied key is not exactly 32 bytes. Detected before
    /// any cryptographic work.
    BadKeyLength,
    /// The caller-supplied nonce is not exactly 12 bytes. Detected before
    /// any cryptographic work.
    BadNonceLength,
    /// The authentication tag did not verify: the ciphertext was tampered
    /// with, or the key or nonce does not match the one used to encrypt.
    /// These causes are indistinguishable by design.
    AuthenticationFailed,
    /// The tag verified but the recovered bytes are not valid UTF-8 text.
    InvalidUtf8,
    /// The OS unprotect facility reported failure; the platform gives no
    /// structured detail on this path.
    PlatformFailure,
}

} // verus!

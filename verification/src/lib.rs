//! Recovery of plaintext secrets from encrypted blobs, by one of two
//! mutually exclusive decryption primitives: an OS-managed "unprotect"
//! facility, or authenticated symmetric decryption (AES-256-GCM) with a
//! caller-supplied key and nonce. Either path returns the exact plaintext
//! or a typed failure; no partial output is ever produced.

pub mod aead;
pub mod api;
pub mod errors;
pub mod laws;
pub mod unprotect;

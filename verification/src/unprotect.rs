//! The OS-unprotect path: a blob sealed by a per-user, per-machine key
//! that the calling process never holds is opened by the platform's
//! protected-data facility. Only the platform can perform that call, so
//! the caller performs it and reports what happened as a
//! [`PlatformUnprotectEvent`]; everything this library decides about the
//! outcome is verified here.

use vstd::prelude::*;

use crate::errors::DecryptError;

verus! {

/// The configuration the platform unprotect call must be made with. Every
/// optional feature of the facility is explicitly disabled — stated as a
/// field rather than omitted, so the contract documents itself.
pub struct UnprotectOptions {
    /// Whether additional caller entropy is mixed into the key. Never.
    pub use_optional_entropy: bool,
    /// Whether the platform may show a prompt to the user. Never.
    pub use_prompt_ui: bool,
    /// Whether a description string of the output is requested. Never.
    pub request_output_description: bool,
}

impl UnprotectOptions {
    /// True exactly when every optional feature is switched off.
    pub open spec fn all_disabled(self) -> bool {
        !self.use_optional_entropy && !self.use_prompt_ui && !self.request_output_description
    }

    /// The one configuration this library permits: no entropy, no prompt,
    /// no description.
    pub fn disabled() -> (o: UnprotectOptions)
        ensures
            o.all_disabled(),
    {
        UnprotectOptions {
            use_optional_entropy: false,
            use_prompt_ui: false,
            request_output_description: false,
        }
    }
}

/// What the platform's unprotect call reported. The caller that performed
/// the call constructs this from the call's outcome: `Recovered` carries a
/// bounds-checked copy of the platform-allocated output buffer (which the
/// caller must release regardless), `Refused` stands for any non-success
/// return — the platform gives no structured detail on this path.
pub enum PlatformUnprotectEvent {
    /// The platform decrypted the blob; these are the output bytes, copied
    /// out of the platform-owned buffer.
    Recovered(Vec<u8>),
    /// The platform signalled failure, for any reason.
    Refused,
}

/// What the OS-unprotect path yields for a given platform outcome: the
/// recovered bytes exactly as the platform produced them, or the one
/// generic failure.
pub open spec fn unprotect_model(event_bytes: Option<Seq<u8>>) -> Result<Seq<u8>, DecryptError> {
    match event_bytes {
        Option::Some(bytes) => Result::Ok(bytes),
        Option::None => Result::Err(DecryptError::PlatformFailure),
    }
}

/// The bytes an event carries, if any.
pub open spec fn event_bytes(event: PlatformUnprotectEvent) -> Option<Seq<u8>> {
    match event {
        PlatformUnprotectEvent::Recovered(bytes) => Option::Some(bytes@),
        PlatformUnprotectEvent::Refused => Option::None,
    }
}

/// Turns the platform's report into this library's result: success passes
/// the platform's bytes through unchanged — all of them, never a partial
/// copy — and any refusal becomes the single opaque `PlatformFailure`,
/// with no detail to leak.
pub fn interpret_unprotect_event(event: PlatformUnprotectEvent) -> (r: Result<
    Vec<u8>,
    DecryptError,
>)
    ensures
        r is Ok <==> unprotect_model(event_bytes(event)) is Ok,
        r is Ok ==> r.unwrap()@ == unprotect_model(event_bytes(event))->Ok_0,
        r is Err ==> r.unwrap_err() == unprotect_model(event_bytes(event))->Err_0,
{
    match event {
        PlatformUnprotectEvent::Recovered(bytes) => Result::Ok(bytes),
        PlatformUnprotectEvent::Refused => Result::Err(DecryptError::PlatformFailure),
    }
}

} // verus!

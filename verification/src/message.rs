//! Scheduler messages and the bridge's error taxonomy.
//!
//! A scheduler message is the unit of work delivered over the message
//! channel into the rendering engine: either a user-input event decoded from
//! a surface-originated payload, or an internal wake signal. A message is
//! constructed at decode time and consumed exactly once by the worker; a
//! payload that fails to decode is dropped, never retried.

use vstd::prelude::*;

verus! {

/// Everything that can go wrong inside the bridge. Errors local to one
/// window or one message never halt the foreground loop.
#[derive(Clone, Copy, Debug, PartialEq, Eq, Structural)]
pub enum BridgeError {
    /// The message channel's receiving end was torn down. Fatal to the
    /// engine worker, not to the process.
    ChannelClosed,
    /// A surface-originated input event was malformed. The event is logged
    /// and dropped; the loop continues.
    DecodeFailure,
    /// A surface rejected a patch, for example because it was mid-teardown.
    /// The remaining queued batches are attempted again on the next tick.
    PatchApplicationFailure,
    /// A native window or its surface could not be created. Fatal to that
    /// window-open request only.
    WindowConstructionFailure,
}

/// Declares serde_json::Value — the opaque payload of a decoded input event
/// — so it can stand in signatures and fields. The bridge never looks inside
/// one; it only carries it to the engine.
#[verifier::external_type_specification]
#[verifier::external_body]
pub struct ExValue(serde_json::Value);

/// Declares serde_json::Error, the error the payload parser reports; it is
/// mapped to a decode failure of the bridge's own.
#[verifier::external_type_specification]
#[verifier::external_body]
pub struct ExJsonError(serde_json::Error);

/// A unit of work delivered over the message channel into the rendering
/// engine worker.
pub enum ScheduledMessage {
    /// A decoded user-input event, to be injected into the engine.
    Event(serde_json::Value),
    /// An internal wake/continue signal.
    Wake,
}

/// The wake notification the worker posts to the foreground event loop: one
/// at loop start, one after every cycle that queued a batch.
#[derive(Clone, Copy, Debug, PartialEq, Eq, Structural)]
pub enum UserWindowEvent {
    Start,
    Update,
}

/// Whether this text is accepted by the event payload grammar, that is,
/// whether decoding it succeeds. Acceptance depends on the characters alone.
pub uninterp spec fn json_decodes(s: Seq<char>) -> bool;

/// Relies on serde_json::from_str::<Value>: parsing is deterministic, so
/// whether a payload string decodes is a function of its characters alone.
#[verifier::external_body]
fn parse_json(s: &str) -> (r: Result<serde_json::Value, serde_json::Error>)
    ensures
        r is Ok <==> json_decodes(s@),
{
    serde_json::from_str(s)
}

/// Decode one surface-originated user-event payload into a scheduler
/// message. Succeeds exactly on the payloads the grammar accepts; a
/// malformed payload yields a decode failure, which the dispatcher reports
/// and drops.
pub fn decode_user_event(raw: &str) -> (r: Result<ScheduledMessage, BridgeError>)
    ensures
        r is Ok <==> json_decodes(raw@),
        r matches Ok(m) ==> m is Event,
        r is Err ==> r == Err::<ScheduledMessage, BridgeError>(BridgeError::DecodeFailure),
{
    match parse_json(raw) {
        Ok(v) => Ok(ScheduledMessage::Event(v)),
        Err(_) => Err(BridgeError::DecodeFailure),
    }
}

} // verus!

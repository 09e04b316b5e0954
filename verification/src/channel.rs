//! The message channel: the unbounded, multi-producer/single-consumer queue
//! that carries scheduler messages into the rendering engine worker.
//!
//! Sending is non-blocking and may happen from any thread; it fails only
//! when the receiving end has been torn down. The dispatcher treats that as
//! fatal for the affected window, not for the process. Capacity is
//! unbounded by design: the bridge never drops or blocks on user input.

use vstd::prelude::*;
use crate::message::{BridgeError, ScheduledMessage};
use futures_channel::mpsc::UnboundedSender;

verus! {

/// Declares futures_channel::mpsc::UnboundedSender, the write end of the
/// message channel, so the controller can hold one in a field.
#[verifier::external_type_specification]
#[verifier::external_body]
#[verifier::reject_recursive_types(T)]
pub struct ExUnboundedSender<T>(UnboundedSender<T>);

/// Relies on futures_channel::mpsc::UnboundedSender::unbounded_send: the
/// call never blocks, and it returns an error exactly when the channel is
/// disconnected — a condition of the channel, not of the arguments, so
/// nothing relates the outcome to them.
#[verifier::external_body]
fn unbounded_send_ok(sender: &UnboundedSender<ScheduledMessage>, msg: ScheduledMessage) -> bool {
    sender.unbounded_send(msg).is_ok()
}

/// Hand one scheduler message to the engine worker over the message
/// channel. Whatever the channel's state, the only failure this can report
/// is that the receiving end is gone.
pub fn send_message(sender: &UnboundedSender<ScheduledMessage>, msg: ScheduledMessage) -> (r:
    Result<(), BridgeError>)
    ensures
        r is Err ==> r == Err::<(), BridgeError>(BridgeError::ChannelClosed),
{
    if unbounded_send_ok(sender, msg) {
        Ok(())
    } else {
        Err(BridgeError::ChannelClosed)
    }
}

} // verus!

//! The frame channel between the hardware callback and the streaming
//! transport: an unbounded queue of converted audio buffers.

use vstd::prelude::*;
use tokio::sync::mpsc::UnboundedReceiver;
use tokio::sync::mpsc::UnboundedSender;
use tokio::sync::mpsc::error::SendError;
use crate::error::AudioError;

verus! {

/// Sending half of tokio's unbounded channel.
#[verifier::external_type_specification]
#[verifier::external_body]
#[verifier::reject_recursive_types(T)]
pub struct ExUnboundedSender<T>(UnboundedSender<T>);

/// Receiving half of tokio's unbounded channel.
#[verifier::external_type_specification]
#[verifier::external_body]
#[verifier::reject_recursive_types(T)]
pub struct ExUnboundedReceiver<T>(UnboundedReceiver<T>);

/// Error of a send on a channel whose receiving half is closed.
#[verifier::external_type_specification]
#[verifier::external_body]
#[verifier::reject_recursive_types(T)]
pub struct ExSendError<T>(SendError<T>);

/// `tokio::sync::mpsc::unbounded_channel`: makes a channel and returns its two
/// halves.  Nothing is claimed of them.
pub assume_specification<T>[ tokio::sync::mpsc::unbounded_channel::<T> ]() -> (halves: (
    UnboundedSender<T>,
    UnboundedReceiver<T>,
));

/// `UnboundedSender::send`: queues `message` without waiting, or fails when
/// the receiving half is closed or dropped.  Which of the two happens depends
/// on the other half, so nothing is claimed of the result.  (tokio ends the
/// process should the count of queued messages overflow the machine word.)
pub assume_specification<T>[ UnboundedSender::<T>::send ](
    sender: &UnboundedSender<T>,
    message: T,
) -> (sent: Result<(), SendError<T>>);

/// `Clone` of `UnboundedSender`: another handle to the same channel.  Nothing
/// is claimed of it.
pub assume_specification<T>[ <UnboundedSender<T> as Clone>::clone ](
    sender: &UnboundedSender<T>,
) -> (handle: UnboundedSender<T>);

/// What a send on the frame channel amounts to: success, or
/// [`AudioError::ChannelClosed`] where the consumer is gone.  The frame that a
/// failed send hands back is dropped.
pub fn send_outcome(sent: Result<(), SendError<Vec<u8>>>) -> (result: Result<(), AudioError>)
    ensures
        sent is Ok ==> result == Ok::<(), AudioError>(()),
        sent is Err ==> result == Err::<(), AudioError>(AudioError::ChannelClosed),
{
    match sent {
        Ok(_) => Ok(()),
        Err(_) => Err(AudioError::ChannelClosed),
    }
}

/// Pushes one converted buffer into the frame channel without blocking.
/// Fails with [`AudioError::ChannelClosed`], and with no other error, when the
/// consumer is gone; the frame is then dropped.
pub fn forward_frame(frames: &UnboundedSender<Vec<u8>>, frame: Vec<u8>) -> (result: Result<
    (),
    AudioError,
>)
    ensures
        result is Err ==> result == Err::<(), AudioError>(AudioError::ChannelClosed),
{
    send_outcome(frames.send(frame))
}

} // verus!

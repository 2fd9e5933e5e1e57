//! The message queues of `tokio::sync` that connect the tasks of the relay.
//!
//! The verifier sees these types as opaque. Nothing is claimed of what a
//! queue holds or of whether a send arrives; verified code says what it
//! does for either outcome.

use tokio::sync::{broadcast, mpsc, oneshot};
use vstd::prelude::*;

use crate::channels::define::{ChannelData, ClientEvent, ClientIntent, MediaFrame};

verus! {

#[verifier::external_type_specification]
#[verifier::external_body]
#[verifier::reject_recursive_types(T)]
pub struct ExUnboundedSender<T>(mpsc::UnboundedSender<T>);

#[verifier::external_type_specification]
#[verifier::external_body]
#[verifier::reject_recursive_types(T)]
pub struct ExUnboundedReceiver<T>(mpsc::UnboundedReceiver<T>);

#[verifier::external_type_specification]
#[verifier::external_body]
#[verifier::reject_recursive_types(T)]
pub struct ExMpscSendError<T>(mpsc::error::SendError<T>);

#[verifier::external_type_specification]
#[verifier::external_body]
#[verifier::reject_recursive_types(T)]
pub struct ExBroadcastSender<T>(broadcast::Sender<T>);

#[verifier::external_type_specification]
#[verifier::external_body]
#[verifier::reject_recursive_types(T)]
pub struct ExBroadcastReceiver<T>(broadcast::Receiver<T>);

#[verifier::external_type_specification]
#[verifier::external_body]
#[verifier::reject_recursive_types(T)]
pub struct ExOneshotSender<T>(oneshot::Sender<T>);

/// `mpsc::unbounded_channel` makes a queue and returns its two ends.
pub assume_specification<T>[ mpsc::unbounded_channel::<T> ]() -> (ends: (
    mpsc::UnboundedSender<T>,
    mpsc::UnboundedReceiver<T>,
))
;

/// `UnboundedSender::send` hands a message to the queue, or hands it back in
/// an error when the receiving end is closed. Which of the two happens is up
/// to the receiving task.
pub assume_specification<T>[ mpsc::UnboundedSender::<T>::send ](
    sender: &mpsc::UnboundedSender<T>,
    message: T,
) -> (sent: Result<(), mpsc::error::SendError<T>>)
;

/// Cloning an `UnboundedSender` gives a handle on the same queue. A sender
/// holds nothing but the queue that it feeds (its one field, `chan`), and the
/// clone holds the same queue (`UnboundedSender::same_channel` is true of the
/// two): as values the two are the same handle.
pub assume_specification<T>[ <mpsc::UnboundedSender<T> as Clone>::clone ](
    sender: &mpsc::UnboundedSender<T>,
) -> (handle: mpsc::UnboundedSender<T>)
    ensures
        handle == *sender,
;

/// `broadcast::Sender::subscribe` returns a new receiver, which sees the
/// messages sent from then on.
pub assume_specification<T>[ broadcast::Sender::<T>::subscribe ](
    sender: &broadcast::Sender<T>,
) -> (receiver: broadcast::Receiver<T>)
;

/// `oneshot::Sender::send` hands the one message over, or hands it back when
/// the receiver is gone.
pub assume_specification<T>[ oneshot::Sender::<T>::send ](
    sender: oneshot::Sender<T>,
    value: T,
) -> (sent: Result<(), T>)
;

/// The frames that were handed to a subscriber's queue through a handle,
/// first to last. Nothing but `hand` adds to it. A clone of a handle would
/// take the log along; the library makes no second handle on a subscriber's
/// queue.
pub uninterp spec fn handed(queue: mpsc::UnboundedSender<ChannelData>) -> Seq<MediaFrame>;

/// Hands one frame to a subscriber's queue, with `UnboundedSender::send`.
///
/// Trusted: the frame is behind what the handle had been handed if the
/// queue took it; a queue whose receiving end is closed takes nothing, and
/// the handle is as it was.
#[verifier::external_body]
pub(crate) fn hand(queue: &mut mpsc::UnboundedSender<ChannelData>, frame: ChannelData) -> (taken:
    bool)
    ensures
        taken ==> handed(*final(queue)) == handed(*old(queue)).push(frame@),
        !taken ==> *final(queue) == *old(queue),
{
    queue.send(frame).is_ok()
}

/// The notices that were handed to the relay clients' queue through a
/// handle, first to last. Nothing but `notice` adds to it.
pub uninterp spec fn noticed(queue: broadcast::Sender<ClientEvent>) -> Seq<ClientIntent>;

/// Makes the queue of notices to relay clients, with `broadcast::channel`.
/// The queue keeps up to `capacity` notices for a receiver that lags behind.
///
/// Trusted: nothing has been handed to a new queue. `broadcast::channel`
/// panics on a capacity of zero or of more than half of `usize::MAX`; those
/// are left out.
#[verifier::external_body]
pub(crate) fn notice_queue(capacity: usize) -> (ends: (
    broadcast::Sender<ClientEvent>,
    broadcast::Receiver<ClientEvent>,
))
    requires
        0 < capacity <= usize::MAX / 2,
    ensures
        noticed(ends.0) == Seq::<ClientIntent>::empty(),
{
    broadcast::channel(capacity)
}

/// Hands one notice to the relay clients' queue, with
/// `broadcast::Sender::send`.
///
/// Trusted: the notice is behind what the handle had been handed if a relay
/// client was there to take it; where nobody listens the queue takes nothing,
/// and the handle is as it was. The call does not unwind: it takes the
/// queue's locks, writes one slot under a mask and wakes the receivers.
#[verifier::external_body]
pub(crate) fn notice(queue: &mut broadcast::Sender<ClientEvent>, event: ClientEvent) -> (taken:
    bool)
    ensures
        taken ==> noticed(*final(queue)) == noticed(*old(queue)).push(event@),
        !taken ==> *final(queue) == *old(queue),
    no_unwind
{
    queue.send(event).is_ok()
}

} // verus!

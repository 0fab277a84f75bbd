//! The channel endpoints a worker holds, as far as the worker relies on them.
//!
//! Nothing here is proved.  The declarations make the types of
//! `crossbeam_channel` known, and the two specifications let a worker call
//! `try_recv` and `send` without claiming anything of what comes back: what a
//! channel yields depends on the threads at its other end.

use vstd::prelude::*;

verus! {

/// `crossbeam_channel::Sender`, the sending half of a channel, as an opaque type.
#[verifier::external_type_specification]
#[verifier::external_body]
#[verifier::reject_recursive_types(T)]
pub struct ExSender<T>(crossbeam_channel::Sender<T>);

/// `crossbeam_channel::Receiver`, the receiving half of a channel, as an opaque
/// type.
#[verifier::external_type_specification]
#[verifier::external_body]
#[verifier::reject_recursive_types(T)]
pub struct ExReceiver<T>(crossbeam_channel::Receiver<T>);

/// `crossbeam_channel::TryRecvError`, the reason a poll yielded no message
/// (channel empty, or empty and disconnected), as an opaque type.
#[verifier::external_type_specification]
#[verifier::external_body]
pub struct ExTryRecvError(crossbeam_channel::TryRecvError);

/// `crossbeam_channel::SendError`, which hands back a message that could not
/// be sent because every receiver is gone, as an opaque type.
#[verifier::external_type_specification]
#[verifier::external_body]
#[verifier::reject_recursive_types(T)]
pub struct ExSendError<T>(crossbeam_channel::SendError<T>);

/// `crossbeam_channel::Receiver::try_recv` returns without blocking, with a
/// message or with an error.  Which of the two, and which message, is left open.
pub assume_specification<T>[ crossbeam_channel::Receiver::<T>::try_recv ](
    rx: &crossbeam_channel::Receiver<T>,
) -> (polled: Result<T, crossbeam_channel::TryRecvError>)
;

/// `crossbeam_channel::Sender::send` returns `Ok` once the message is in the
/// channel, for which it waits while a bounded channel is full, and an error
/// once the channel is disconnected.  Which of the two is left open.
pub assume_specification<T>[ crossbeam_channel::Sender::<T>::send ](
    tx: &crossbeam_channel::Sender<T>,
    msg: T,
) -> (sent: Result<(), crossbeam_channel::SendError<T>>)
;

} // verus!

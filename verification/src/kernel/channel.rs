//! Channel backends.
//!
//! A mailbox queue runs over one of three channel kinds: the bounded and the
//! unbounded channel of `std::sync::mpsc`, or a `flume` channel. The kind is
//! chosen when the queue is made and is invisible afterwards: [`Channel`] and
//! [`ChannelRecv`] give the two ends one interface.
//!
//! The channels are shared between threads, so nothing here describes what a
//! channel holds at a given moment. What is stated of a send is what holds of
//! every outcome: a message that did not go in comes back as it was.
use vstd::prelude::*;

use crate::kernel::queue::EnqueueError;

verus! {

/// `std::sync::mpsc::Sender`, the producer end of std's unbounded channel.
/// Carried as an opaque value.
#[verifier::external_type_specification]
#[verifier::external_body]
#[verifier::reject_recursive_types(T)]
pub struct ExStdSender<T>(std::sync::mpsc::Sender<T>);

/// `std::sync::mpsc::SyncSender`, the producer end of std's bounded channel.
/// Carried as an opaque value.
#[verifier::external_type_specification]
#[verifier::external_body]
#[verifier::reject_recursive_types(T)]
pub struct ExStdSyncSender<T>(std::sync::mpsc::SyncSender<T>);

/// `std::sync::mpsc::Receiver`, the consumer end of both std channels.
/// Carried as an opaque value.
#[verifier::external_type_specification]
#[verifier::external_body]
#[verifier::reject_recursive_types(T)]
pub struct ExStdReceiver<T>(std::sync::mpsc::Receiver<T>);

/// `std::sync::mpsc::SendError`: the message that an unbounded send could not
/// deliver, in its one public field.
#[verifier::external_type_specification]
#[verifier::reject_recursive_types(T)]
pub struct ExStdSendError<T>(std::sync::mpsc::SendError<T>);

/// `std::sync::mpsc::TrySendError`: `Full` or `Disconnected`, each with the
/// message that was not sent.
#[verifier::external_type_specification]
#[verifier::reject_recursive_types(T)]
pub struct ExStdTrySendError<T>(std::sync::mpsc::TrySendError<T>);

/// `std::sync::mpsc::RecvError`: the unit error of a blocking receive.
#[verifier::external_type_specification]
pub struct ExStdRecvError(std::sync::mpsc::RecvError);

/// `std::sync::mpsc::TryRecvError`: `Empty` or `Disconnected`.
#[verifier::external_type_specification]
pub struct ExStdTryRecvError(std::sync::mpsc::TryRecvError);

/// `flume::Sender`, the producer end of a flume channel. Carried as an opaque
/// value.
#[verifier::external_type_specification]
#[verifier::external_body]
#[verifier::reject_recursive_types(T)]
pub struct ExFlumeSender<T>(flume::Sender<T>);

/// `flume::Receiver`, the consumer end of a flume channel. Carried as an
/// opaque value.
#[verifier::external_type_specification]
#[verifier::external_body]
#[verifier::reject_recursive_types(T)]
pub struct ExFlumeReceiver<T>(flume::Receiver<T>);

/// `flume::TrySendError`: `Full` or `Disconnected`, each with the message that
/// was not sent.
#[verifier::external_type_specification]
#[verifier::reject_recursive_types(T)]
pub struct ExFlumeTrySendError<T>(flume::TrySendError<T>);

/// `flume::RecvError`: its one variant, `Disconnected`.
#[verifier::external_type_specification]
pub struct ExFlumeRecvError(flume::RecvError);

/// `flume::TryRecvError`: `Empty` or `Disconnected`.
#[verifier::external_type_specification]
pub struct ExFlumeTryRecvError(flume::TryRecvError);

/// `std::sync::mpsc::channel` makes an unbounded channel. Nothing is claimed
/// of the two ends.
pub assume_specification<T>[ std::sync::mpsc::channel::<T> ]() -> (ends: (
    std::sync::mpsc::Sender<T>,
    std::sync::mpsc::Receiver<T>,
));

/// `std::sync::mpsc::sync_channel` makes a channel that buffers up to `bound`
/// messages. Nothing is claimed of the two ends.
pub assume_specification<T>[ std::sync::mpsc::sync_channel::<T> ](bound: usize) -> (ends: (
    std::sync::mpsc::SyncSender<T>,
    std::sync::mpsc::Receiver<T>,
));

/// `Sender::send` of std never blocks. It fails only when the receiver is
/// gone, and the error then carries the message that was given.
pub assume_specification<T>[ std::sync::mpsc::Sender::<T>::send ](
    tx: &std::sync::mpsc::Sender<T>,
    t: T,
) -> (r: Result<(), std::sync::mpsc::SendError<T>>)
    ensures
        r matches Err(e) ==> e.0 == t,
;

/// `SyncSender::try_send` of std never blocks. When the buffer is full or the
/// receiver is gone it fails, and the error carries the message that was
/// given.
pub assume_specification<T>[ std::sync::mpsc::SyncSender::<T>::try_send ](
    tx: &std::sync::mpsc::SyncSender<T>,
    t: T,
) -> (r: Result<(), std::sync::mpsc::TrySendError<T>>)
    ensures
        r matches Err(std::sync::mpsc::TrySendError::Full(m)) ==> m == t,
        r matches Err(std::sync::mpsc::TrySendError::Disconnected(m)) ==> m == t,
;

/// `Receiver::recv` of std waits for a message. Nothing is claimed of what it
/// returns.
pub assume_specification<T>[ std::sync::mpsc::Receiver::<T>::recv ](
    rx: &std::sync::mpsc::Receiver<T>,
) -> (r: Result<T, std::sync::mpsc::RecvError>);

/// `Receiver::try_recv` of std returns at once. Nothing is claimed of what it
/// returns.
pub assume_specification<T>[ std::sync::mpsc::Receiver::<T>::try_recv ](
    rx: &std::sync::mpsc::Receiver<T>,
) -> (r: Result<T, std::sync::mpsc::TryRecvError>);

/// `Clone` of std's `Sender`: another handle on the same channel. Nothing is
/// claimed of it.
pub assume_specification<T>[ <std::sync::mpsc::Sender<T> as Clone>::clone ](
    tx: &std::sync::mpsc::Sender<T>,
) -> (other: std::sync::mpsc::Sender<T>);

/// `Clone` of std's `SyncSender`: another handle on the same channel. Nothing
/// is claimed of it.
pub assume_specification<T>[ <std::sync::mpsc::SyncSender<T> as Clone>::clone ](
    tx: &std::sync::mpsc::SyncSender<T>,
) -> (other: std::sync::mpsc::SyncSender<T>);

/// `flume::unbounded` makes an unbounded channel. Nothing is claimed of the
/// two ends.
pub assume_specification<T>[ flume::unbounded::<T> ]() -> (ends: (
    flume::Sender<T>,
    flume::Receiver<T>,
));

/// `flume::bounded` makes a channel that buffers up to `cap` messages.
/// Nothing is claimed of the two ends.
pub assume_specification<T>[ flume::bounded::<T> ](cap: usize) -> (ends: (
    flume::Sender<T>,
    flume::Receiver<T>,
));

/// `flume::Sender::try_send` never blocks. When a bounded channel is full or
/// every receiver is gone it fails, and the error carries the message that
/// was given.
pub assume_specification<T>[ flume::Sender::<T>::try_send ](tx: &flume::Sender<T>, msg: T) -> (r:
    Result<(), flume::TrySendError<T>>)
    ensures
        r matches Err(flume::TrySendError::Full(m)) ==> m == msg,
        r matches Err(flume::TrySendError::Disconnected(m)) ==> m == msg,
;

/// `flume::Receiver::recv` waits for a message. Nothing is claimed of what it
/// returns.
pub assume_specification<T>[ flume::Receiver::<T>::recv ](rx: &flume::Receiver<T>) -> (r: Result<
    T,
    flume::RecvError,
>);

/// `flume::Receiver::try_recv` returns at once. Nothing is claimed of what it
/// returns.
pub assume_specification<T>[ flume::Receiver::<T>::try_recv ](rx: &flume::Receiver<T>) -> (r:
    Result<T, flume::TryRecvError>);

/// `Clone` of `flume::Sender`: another handle on the same channel. Nothing is
/// claimed of it.
pub assume_specification<T>[ <flume::Sender<T> as Clone>::clone ](tx: &flume::Sender<T>) -> (other:
    flume::Sender<T>);

/// Which library carries the messages of a queue.
#[derive(Clone, Copy, Debug, PartialEq, Eq)]
pub enum Backend {
    /// The channels of `std::sync::mpsc`.
    Std,
    /// A `flume` channel.
    Flume,
}

/// The producer end of a queue's channel.
#[derive(Clone)]
#[verifier::reject_recursive_types(T)]
pub enum Channel<T> {
    /// std's bounded channel.
    Bounded(std::sync::mpsc::SyncSender<T>),
    /// std's unbounded channel.
    Unbounded(std::sync::mpsc::Sender<T>),
    /// A flume channel, bounded or not.
    Flume(flume::Sender<T>),
}

/// The consumer end of a queue's channel.
#[verifier::reject_recursive_types(T)]
pub enum ChannelRecv<T> {
    /// The receiver of either std channel.
    Std(std::sync::mpsc::Receiver<T>),
    /// The receiver of a flume channel.
    Flume(flume::Receiver<T>),
}

/// Why a receive returned without a message.
#[derive(Clone, Copy, Debug, PartialEq, Eq)]
pub enum Idle {
    /// Nothing is waiting, but a producer may still send.
    Empty,
    /// Nothing is waiting and every producer end is gone.
    Disconnected,
}

/// What a failed `try_send` of std makes of the message: the enqueue error
/// that hands it back, whether the channel was full or closed.
pub fn std_rejected<T>(e: std::sync::mpsc::TrySendError<T>) -> (err: EnqueueError<T>)
    ensures
        e matches std::sync::mpsc::TrySendError::Full(m) ==> err.msg == m,
        e matches std::sync::mpsc::TrySendError::Disconnected(m) ==> err.msg == m,
{
    match e {
        std::sync::mpsc::TrySendError::Full(m) => EnqueueError { msg: m },
        std::sync::mpsc::TrySendError::Disconnected(m) => EnqueueError { msg: m },
    }
}

/// What a failed `try_send` of flume makes of the message: the enqueue error
/// that hands it back, whether the channel was full or closed.
pub fn flume_rejected<T>(e: flume::TrySendError<T>) -> (err: EnqueueError<T>)
    ensures
        e matches flume::TrySendError::Full(m) ==> err.msg == m,
        e matches flume::TrySendError::Disconnected(m) ==> err.msg == m,
{
    match e {
        flume::TrySendError::Full(m) => EnqueueError { msg: m },
        flume::TrySendError::Disconnected(m) => EnqueueError { msg: m },
    }
}

/// What an enqueue makes of the result of std's `try_send`: success stays
/// success, and either failure hands the message back.
pub fn std_try_sent<T>(sent: Result<(), std::sync::mpsc::TrySendError<T>>) -> (r: Result<
    (),
    EnqueueError<T>,
>)
    ensures
        sent is Ok <==> r is Ok,
        sent matches Err(std::sync::mpsc::TrySendError::Full(m)) ==> (r matches Err(e) && e.msg == m),
        sent matches Err(std::sync::mpsc::TrySendError::Disconnected(m)) ==> (r matches Err(e)
            && e.msg == m),
{
    match sent {
        Ok(()) => Ok(()),
        Err(e) => Err(std_rejected(e)),
    }
}

/// What an enqueue makes of the result of std's unbounded `send`: success
/// stays success, and a failure hands the message back.
pub fn std_sent<T>(sent: Result<(), std::sync::mpsc::SendError<T>>) -> (r: Result<
    (),
    EnqueueError<T>,
>)
    ensures
        sent is Ok <==> r is Ok,
        sent matches Err(closed) ==> (r matches Err(e) && e.msg == closed.0),
{
    match sent {
        Ok(()) => Ok(()),
        Err(closed) => Err(EnqueueError { msg: closed.0 }),
    }
}

/// What an enqueue makes of the result of flume's `try_send`: success stays
/// success, and either failure hands the message back.
pub fn flume_try_sent<T>(sent: Result<(), flume::TrySendError<T>>) -> (r: Result<
    (),
    EnqueueError<T>,
>)
    ensures
        sent is Ok <==> r is Ok,
        sent matches Err(flume::TrySendError::Full(m)) ==> (r matches Err(e) && e.msg == m),
        sent matches Err(flume::TrySendError::Disconnected(m)) ==> (r matches Err(e) && e.msg == m),
{
    match sent {
        Ok(()) => Ok(()),
        Err(e) => Err(flume_rejected(e)),
    }
}

/// What a receive makes of the result of std's `recv`: the message, or the
/// news that the channel is closed and drained.
pub fn std_received<T>(got: Result<T, std::sync::mpsc::RecvError>) -> (r: Result<T, Idle>)
    ensures
        got matches Ok(t) ==> (r matches Ok(x) && x == t),
        got is Err ==> (r matches Err(e) && e == Idle::Disconnected),
{
    match got {
        Ok(t) => Ok(t),
        Err(_) => Err(Idle::Disconnected),
    }
}

/// What a receive makes of the result of flume's `recv`: the message, or the
/// news that the channel is closed and drained.
pub fn flume_received<T>(got: Result<T, flume::RecvError>) -> (r: Result<T, Idle>)
    ensures
        got matches Ok(t) ==> (r matches Ok(x) && x == t),
        got is Err ==> (r matches Err(e) && e == Idle::Disconnected),
{
    match got {
        Ok(t) => Ok(t),
        Err(flume::RecvError::Disconnected) => Err(Idle::Disconnected),
    }
}

/// What a receive makes of the result of std's `try_recv`: the message, or
/// why there is none.
pub fn std_try_received<T>(got: Result<T, std::sync::mpsc::TryRecvError>) -> (r: Result<T, Idle>)
    ensures
        got matches Ok(t) ==> (r matches Ok(x) && x == t),
        got matches Err(std::sync::mpsc::TryRecvError::Empty) ==> (r matches Err(e) && e
            == Idle::Empty),
        got matches Err(std::sync::mpsc::TryRecvError::Disconnected) ==> (r matches Err(e) && e
            == Idle::Disconnected),
{
    match got {
        Ok(t) => Ok(t),
        Err(std::sync::mpsc::TryRecvError::Empty) => Err(Idle::Empty),
        Err(std::sync::mpsc::TryRecvError::Disconnected) => Err(Idle::Disconnected),
    }
}

/// What a receive makes of the result of flume's `try_recv`: the message, or
/// why there is none.
pub fn flume_try_received<T>(got: Result<T, flume::TryRecvError>) -> (r: Result<T, Idle>)
    ensures
        got matches Ok(t) ==> (r matches Ok(x) && x == t),
        got matches Err(flume::TryRecvError::Empty) ==> (r matches Err(e) && e == Idle::Empty),
        got matches Err(flume::TryRecvError::Disconnected) ==> (r matches Err(e) && e
            == Idle::Disconnected),
{
    match got {
        Ok(t) => Ok(t),
        Err(flume::TryRecvError::Empty) => Err(Idle::Empty),
        Err(flume::TryRecvError::Disconnected) => Err(Idle::Disconnected),
    }
}

impl<T> Channel<T> {
    /// Offers `t` to the channel without ever waiting. A message that does not
    /// go in, because a bounded channel is full or because the consumer end is
    /// gone, comes back unchanged inside the error. Whether it goes in is for
    /// the channel to say: the result is what [`std_try_sent`], [`std_sent`]
    /// or [`flume_try_sent`] makes of the channel's answer.
    pub fn send(&self, t: T) -> (r: Result<(), EnqueueError<T>>)
        ensures
            r matches Err(e) ==> e.msg == t,
    {
        match self {
            Channel::Bounded(tx) => std_try_sent(tx.try_send(t)),
            Channel::Unbounded(tx) => std_sent(tx.send(t)),
            Channel::Flume(tx) => flume_try_sent(tx.try_send(t)),
        }
    }
}

impl<T> ChannelRecv<T> {
    /// Waits until the channel hands out a message. It gives up only when the
    /// channel is closed and drained. What comes is for the channel to say:
    /// the result is what [`std_received`] or [`flume_received`] makes of the
    /// channel's answer.
    pub fn recv(&self) -> (r: Result<T, Idle>)
        ensures
            r matches Err(e) ==> e == Idle::Disconnected,
    {
        match self {
            ChannelRecv::Std(rx) => std_received(rx.recv()),
            ChannelRecv::Flume(rx) => flume_received(rx.recv()),
        }
    }

    /// Takes a message if one is ready, without waiting. What comes is for the
    /// channel to say, and every value of the result can come: the result is
    /// what [`std_try_received`] or [`flume_try_received`] makes of the
    /// channel's answer.
    pub fn try_recv(&self) -> (r: Result<T, Idle>) {
        match self {
            ChannelRecv::Std(rx) => std_try_received(rx.try_recv()),
            ChannelRecv::Flume(rx) => flume_try_received(rx.try_recv()),
        }
    }
}

} // verus!

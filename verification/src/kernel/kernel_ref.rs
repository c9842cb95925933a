//! The control channel of an actor, and the dispatch of messages.
//!
//! A [`KernelRef`] is the handle through which lifecycle verbs reach the run
//! loop of one actor. Sending a verb never blocks the caller and never fails
//! for the caller: the verb is handed to a task of its own on the executor of
//! the system, which sends it and drops whatever the send returns. Two verbs
//! sent one after the other travel in two tasks, so the order in which they
//! arrive is not fixed.
use futures::{FutureExt, StreamExt};
use std::sync::Arc;
use vstd::prelude::*;

use crate::actor::uri::ActorUri;
use crate::actor::{MsgError, MsgResult};
use crate::kernel::mailbox::{must_schedule, AnySender, MailboxSender};
use crate::kernel::queue::EnqueueResult;
use crate::kernel::KernelMsg;
use crate::system::ActorSystem;
use crate::{Envelope, Message};

verus! {

/// `futures::channel::mpsc::Sender`, the producer end of the bounded channel
/// on which the run loop of an actor listens for verbs. Carried as an opaque
/// value.
#[verifier::external_type_specification]
#[verifier::external_body]
#[verifier::reject_recursive_types(T)]
pub struct ExControlSender<T>(futures::channel::mpsc::Sender<T>);

/// `Clone` of `futures::channel::mpsc::Sender`: another handle on the same
/// channel. Nothing is claimed of it. A channel of futures allows
/// `usize::MAX >> 2` handles less its buffer size, and `clone` panics at the
/// next one: a limit that no channel with a buffer of ordinary size reaches
/// before memory runs out.
pub assume_specification<T>[ <futures::channel::mpsc::Sender<T> as Clone>::clone ](
    tx: &futures::channel::mpsc::Sender<T>,
) -> (other: futures::channel::mpsc::Sender<T>);

/// The handle on the control channel of one actor. Clones share the channel.
#[derive(Clone)]
pub struct KernelRef {
    pub tx: futures::channel::mpsc::Sender<KernelMsg>,
}

impl KernelRef {
    /// Asks the run loop to sweep the mailbox.
    pub fn schedule(&self, sys: &ActorSystem) {
        self.send(KernelMsg::RunActor, sys);
    }

    /// Asks the run loop to restart the actor.
    pub fn restart(&self, sys: &ActorSystem) {
        self.send(KernelMsg::RestartActor, sys);
    }

    /// Asks the run loop to stop the actor.
    pub fn terminate(&self, sys: &ActorSystem) {
        self.send(KernelMsg::TerminateActor, sys);
    }

    /// Hands the run loop its handle on the system, once, at startup.
    pub fn sys_init(&self, sys: &ActorSystem) {
        self.send(KernelMsg::Sys(sys.clone()), sys);
    }

    /// Sends `msg` to the run loop from a task of its own, over a clone of the
    /// control channel, and returns at once. A send that fails, because the
    /// run loop is gone, is dropped in silence.
    fn send(&self, msg: KernelMsg, sys: &ActorSystem) {
        let tx = self.tx.clone();
        spawn_send(&sys.pool, tx, msg);
    }
}

/// Spawns a task on `pool`, with `ThreadPool::spawn_ok` of futures, that
/// forwards `msg` into `tx` with `StreamExt::forward` and drops both the
/// result and `tx`. The task waits where the channel makes this handle wait
/// for room; when the channel is closed its send fails and nothing else
/// happens. The call itself returns at once. Nothing is claimed of when, or
/// whether, the verb arrives.
#[verifier::external_body]
fn spawn_send(
    pool: &futures::executor::ThreadPool,
    tx: futures::channel::mpsc::Sender<KernelMsg>,
    msg: KernelMsg,
) {
    let verb = futures::stream::once(futures::future::ready(Ok(msg)));
    pool.spawn_ok(verb.forward(tx).map(drop));
}

/// What a dispatch returns for a given outcome of its enqueue: success, or
/// the message that did not go in.
pub open spec fn dispatch_result<Msg: Message>(enqueued: EnqueueResult<Msg>) -> MsgResult<
    Envelope<Msg>,
> {
    match enqueued {
        Ok(()) => Ok(()),
        Err(e) => Err(MsgError { msg: e.msg }),
    }
}

/// The second step of a dispatch, given how the enqueue went. After a failed
/// enqueue the message goes back to the caller and nothing else happens: the
/// flag is not touched and no run is requested. After a successful one the
/// flag is set in one atomic exchange, and if the mailbox was idle this call
/// requests the run.
pub fn settle<Msg: Message>(
    enqueued: EnqueueResult<Msg>,
    mbox: &MailboxSender<Msg>,
    kernel: &KernelRef,
    sys: &ActorSystem,
) -> (r: MsgResult<Envelope<Msg>>)
    ensures
        r == dispatch_result(enqueued),
{
    match enqueued {
        Ok(()) => {
            if must_schedule(mbox.set_scheduled(true)) {
                kernel.schedule(sys);
            }
            Ok(())
        },
        Err(e) => Err(MsgError::new(e.msg)),
    }
}

/// Sends `msg` to the actor behind `mbox`: puts it in the queue and, if that
/// turned the mailbox from idle to busy, requests a run of the actor. Never
/// waits. A message that the queue does not take comes back unchanged inside
/// the error.
pub fn dispatch<Msg: Message>(
    msg: Envelope<Msg>,
    mbox: &MailboxSender<Msg>,
    kernel: &KernelRef,
    sys: &ActorSystem,
) -> (r: MsgResult<Envelope<Msg>>)
    ensures
        r matches Err(e) ==> e.msg == msg,
{
    let enqueued = mbox.try_enqueue(msg);
    settle(enqueued, mbox, kernel, sys)
}

/// The second step of a dispatch through a capability, given how the enqueue
/// went. It returns what the enqueue returned. After a successful enqueue the
/// flag is set in one atomic exchange, and if the mailbox was idle this call
/// requests the run.
pub fn settle_any<M>(
    enqueued: Result<(), ()>,
    mbox: &Arc<dyn AnySender<M>>,
    kernel: &KernelRef,
    sys: &ActorSystem,
) -> (r: Result<(), ()>)
    ensures
        r == enqueued,
{
    if enqueued.is_ok() && must_schedule(mbox.set_sched(true)) {
        kernel.schedule(sys);
    }
    enqueued
}

/// Sends the message in `msg` to the actor behind the capability `mbox`, for
/// a caller that does not know the type of the messages of that actor. It
/// follows the same two steps as [`dispatch`]: the capability takes the
/// message out of `msg` and offers it to its queue, and if that turned the
/// mailbox from idle to busy, a run of the actor is requested. What is left in
/// `msg` is what the capability leaves there. A holder that carries no
/// message for the mailbox is an error, and so is a message that the queue
/// does not take.
pub fn dispatch_any<M>(
    msg: &mut M,
    sender: Option<ActorUri>,
    mbox: &Arc<dyn AnySender<M>>,
    kernel: &KernelRef,
    sys: &ActorSystem,
) -> (r: Result<(), ()>)
    ensures
        *final(msg) == mbox.leaves(*old(msg)),
        !mbox.carries(*old(msg)) ==> r is Err,
{
    let enqueued = mbox.try_any_enqueue(msg, sender);
    settle_any(enqueued, mbox, kernel, sys)
}

} // verus!

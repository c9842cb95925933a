//! The mailbox: a queue and the flag that says whether a run is requested.
//!
//! The flag is `false` while the mailbox is idle and `true` from the moment a
//! producer has requested a run until the run loop has drained the queue. It
//! changes in two places only, and each time by one atomic exchange: a
//! dispatch sets it and learns what it was, and the run loop clears it.
//!
//! The flag and the queue are shared between threads. What a read of the flag
//! or an exchange on it returns depends on what the other holders of the
//! mailbox have done, so the operations on them promise nothing of their
//! results. What follows from a result is decided by verified functions that
//! take it as an argument, [`must_schedule`] for the flag, and the lemmas
//! below say what the protocol comes to over every order of events.
use std::sync::atomic::{AtomicBool, Ordering};
use std::sync::Arc;
use vstd::prelude::*;

use crate::actor::uri::ActorUri;
use crate::kernel::queue::{
    queue, DequeueResult, EnqueueResult, QueueReader, QueueWriter,
};
use crate::{Envelope, Message};

verus! {

/// Whether the producer that found the flag at `previous` has to request a run
/// of the actor: only the one that turns an idle mailbox busy does.
pub open spec fn schedule_owed(previous: bool) -> bool {
    !previous
}

/// What happens to a mailbox, as far as its flag is concerned.
pub enum MailboxEvent {
    /// A dispatch. If the queue accepted its message, it sets the flag and
    /// learns what it was; if not, it leaves the flag alone.
    Dispatch { accepted: bool },
    /// The run loop, after draining the queue, clears the flag.
    Reset,
}

/// The flag after one event.
pub open spec fn flag_after(flag: bool, event: MailboxEvent) -> bool {
    match event {
        MailboxEvent::Dispatch { accepted } => flag || accepted,
        MailboxEvent::Reset => false,
    }
}

/// How many run requests one event issues when it finds the flag at `flag`.
pub open spec fn requests_of(flag: bool, event: MailboxEvent) -> nat {
    match event {
        MailboxEvent::Dispatch { accepted } => if accepted && schedule_owed(flag) {
            1
        } else {
            0
        },
        MailboxEvent::Reset => 0,
    }
}

/// The flag after the given events. Each exchange on the flag is atomic, so
/// whatever threads the events come from, they take effect one after the
/// other: every interleaving is one such sequence.
pub open spec fn flag_after_all(flag: bool, events: Seq<MailboxEvent>) -> bool
    decreases events.len(),
{
    if events.len() == 0 {
        flag
    } else {
        flag_after(flag_after_all(flag, events.drop_last()), events.last())
    }
}

/// How many run requests the given events issue, starting from `flag`.
pub open spec fn requests(flag: bool, events: Seq<MailboxEvent>) -> nat
    decreases events.len(),
{
    if events.len() == 0 {
        0
    } else {
        requests(flag, events.drop_last()) + requests_of(
            flag_after_all(flag, events.drop_last()),
            events.last(),
        )
    }
}

/// How many events of the run clear the flag.
pub open spec fn resets(events: Seq<MailboxEvent>) -> nat
    decreases events.len(),
{
    if events.len() == 0 {
        0
    } else {
        resets(events.drop_last()) + (if events.last() == MailboxEvent::Reset {
            1nat
        } else {
            0nat
        })
    }
}

/// Whether every event of the run is a dispatch.
pub open spec fn is_burst(events: Seq<MailboxEvent>) -> bool {
    forall|i: int| 0 <= i < events.len() ==> events[i] is Dispatch
}

/// Whether the queue accepted the message of some dispatch of the run.
pub open spec fn some_accepted(events: Seq<MailboxEvent>) -> bool {
    exists|i: int| 0 <= i < events.len() && events[i] == (MailboxEvent::Dispatch { accepted: true })
}

/// A dispatch whose message the queue did not take has no effect on
/// scheduling: the flag stays as it was and no run is requested.
pub proof fn lemma_rejected_dispatch_is_silent(flag: bool)
    ensures
        flag_after(flag, MailboxEvent::Dispatch { accepted: false }) == flag,
        requests_of(flag, MailboxEvent::Dispatch { accepted: false }) == 0,
{
}

/// While nothing clears the flag, a busy mailbox stays busy and no dispatch
/// into it requests a run: the producers coalesce.
pub proof fn lemma_busy_coalesces(events: Seq<MailboxEvent>)
    requires
        is_burst(events),
    ensures
        flag_after_all(true, events),
        requests(true, events) == 0,
    decreases events.len(),
{
    if events.len() > 0 {
        assert(events.last() == events[events.len() - 1]);
        lemma_busy_coalesces(events.drop_last());
    }
}

/// A burst of dispatches into an idle mailbox of which the queue accepted
/// none leaves the mailbox idle and requests nothing.
pub proof fn lemma_rejected_burst_is_silent(events: Seq<MailboxEvent>)
    requires
        is_burst(events),
        !some_accepted(events),
    ensures
        !flag_after_all(false, events),
        requests(false, events) == 0,
    decreases events.len(),
{
    if events.len() > 0 {
        let earlier = events.drop_last();
        assert(events.last() == events[events.len() - 1]);
        assert(!some_accepted(earlier)) by {
            if some_accepted(earlier) {
                let i = choose|i: int|
                    0 <= i < earlier.len() && earlier[i] == (MailboxEvent::Dispatch {
                        accepted: true,
                    });
                assert(events[i] == earlier[i]);
            }
        }
        lemma_rejected_burst_is_silent(earlier);
    }
}

/// At most one scheduling: of a burst of dispatches into an idle mailbox, in
/// whatever order their exchanges take effect, exactly one requests a run
/// before the flag is cleared again, provided that the queue accepted at
/// least one of the messages.
pub proof fn lemma_burst_schedules_once(events: Seq<MailboxEvent>)
    requires
        is_burst(events),
        some_accepted(events),
    ensures
        requests(false, events) == 1,
        flag_after_all(false, events),
    decreases events.len(),
{
    let earlier = events.drop_last();
    assert(events.last() == events[events.len() - 1]);
    if some_accepted(earlier) {
        lemma_burst_schedules_once(earlier);
    } else {
        lemma_rejected_burst_is_silent(earlier);
        let i = choose|i: int|
            0 <= i < events.len() && events[i] == (MailboxEvent::Dispatch { accepted: true });
        if i < earlier.len() {
            assert(earlier[i] == events[i]);
        }
    }
}

/// No lost wakeup: once the run loop has cleared the flag, the next dispatch
/// that gets its message into the queue requests a run, whatever happened
/// before. So a message that went into the queue while the run loop was about
/// to clear the flag is not stranded: the run that the next dispatch requests
/// finds it.
pub proof fn lemma_dispatch_after_reset_schedules(flag: bool, before: Seq<MailboxEvent>)
    ensures
        requests(
            flag,
            before.push(MailboxEvent::Reset).push(MailboxEvent::Dispatch { accepted: true }),
        ) == requests(flag, before) + 1,
{
    let cleared = before.push(MailboxEvent::Reset);
    let all = cleared.push(MailboxEvent::Dispatch { accepted: true });
    assert(all.drop_last() =~= cleared);
    assert(cleared.drop_last() =~= before);
    assert(!flag_after_all(flag, cleared));
    assert(requests(flag, cleared) == requests(flag, before));
}

/// Between two clearings of the flag at most one run is requested: over any
/// run of events, the requests outnumber the resets by one at most, and by
/// none while the mailbox is idle.
pub proof fn lemma_requests_bounded_by_resets(flag: bool, events: Seq<MailboxEvent>)
    ensures
        requests(flag, events) + (if flag_after_all(flag, events) {
            0nat
        } else {
            1nat
        }) <= resets(events) + 1,
    decreases events.len(),
{
    if events.len() > 0 {
        lemma_requests_bounded_by_resets(flag, events.drop_last());
    }
}

/// Whether the dispatch that found the flag at `previous` has to request a
/// run.
pub fn must_schedule(previous: bool) -> (owed: bool)
    ensures
        owed == schedule_owed(previous),
{
    !previous
}

/// The producer side of a mailbox. Clones share the mailbox.
#[derive(Clone)]
#[verifier::reject_recursive_types(Msg)]
pub struct MailboxSender<Msg: Message> {
    queue: QueueWriter<Msg>,
    scheduled: Arc<AtomicBool>,
}

impl<Msg: Message> MailboxSender<Msg> {
    /// The producer end of the queue of this mailbox.
    pub closed spec fn writer(self) -> QueueWriter<Msg> {
        self.queue
    }

    /// The flag of this mailbox, which its two sides share.
    pub closed spec fn flag(self) -> Arc<AtomicBool> {
        self.scheduled
    }

    /// Offers `msg` to the mailbox and returns at once. A message that does
    /// not go in comes back unchanged inside the error. The flag is not
    /// touched.
    pub fn try_enqueue(&self, msg: Envelope<Msg>) -> (r: EnqueueResult<Msg>)
        ensures
            r matches Err(e) ==> e.msg == msg,
    {
        self.queue.try_enqueue(msg)
    }

    /// Reads the flag: whether a run of the actor was requested and not yet
    /// done at the moment of the read.
    pub fn is_scheduled(&self) -> bool {
        self.scheduled.load(Ordering::SeqCst)
    }

    /// Sets the flag to `b` and returns what it was, in one atomic exchange.
    pub fn set_scheduled(&self, b: bool) -> (previous: bool) {
        self.scheduled.swap(b, Ordering::SeqCst)
    }
}

/// The consumer side of a mailbox, for the run loop of the actor.
#[verifier::reject_recursive_types(Msg)]
pub struct Mailbox<Msg: Message> {
    queue: QueueReader<Msg>,
    scheduled: Arc<AtomicBool>,
}

impl<Msg: Message> Mailbox<Msg> {
    /// The flag of this mailbox, which its two sides share.
    pub closed spec fn flag(self) -> Arc<AtomicBool> {
        self.scheduled
    }

    /// Hands out the next message, waiting for one if need be. Fails only
    /// when every producer side is gone and the queue is drained.
    pub fn dequeue(&self) -> (r: DequeueResult<Envelope<Msg>>) {
        self.queue.dequeue()
    }

    /// Hands out the next message without waiting.
    pub fn try_dequeue(&self) -> (r: DequeueResult<Envelope<Msg>>) {
        self.queue.try_dequeue()
    }

    /// Whether a message is waiting. The message is not lost by asking.
    pub fn has_msgs(&self) -> (found: bool) {
        self.queue.has_msgs()
    }

    /// Reads the flag: whether a run of the actor was requested and not yet
    /// done at the moment of the read.
    pub fn is_scheduled(&self) -> bool {
        self.scheduled.load(Ordering::SeqCst)
    }

    /// Sets the flag to `b` and returns what it was, in one atomic exchange.
    pub fn set_scheduled(&self, b: bool) -> (previous: bool) {
        self.scheduled.swap(b, Ordering::SeqCst)
    }
}

/// A new, idle mailbox. With `bound` zero its queue is unbounded; else it
/// holds up to `bound` messages.
pub fn mailbox<Msg: Message>(bound: usize) -> (sides: (MailboxSender<Msg>, Mailbox<Msg>))
    ensures
        sides.0.flag() == sides.1.flag(),
        bound > 0 ==> sides.0.writer().channel() is Bounded,
        bound == 0 ==> sides.0.writer().channel() is Unbounded,
{
    let (qw, qr) = queue::<Msg>(bound);
    let scheduled = Arc::new(AtomicBool::new(false));
    let sender = MailboxSender { queue: qw, scheduled: scheduled.clone() };
    let mailbox = Mailbox { queue: qr, scheduled };
    (sender, mailbox)
}

/// A mailbox as a capability, for a producer that does not know the type of
/// its messages. `M` is the form in which such a producer holds a message.
pub trait AnySender<M> {
    /// Whether the holder `msg` has a message in it that this mailbox takes.
    spec fn carries(&self, msg: M) -> bool;

    /// What an enqueue leaves in the holder `msg`, whether the queue takes the
    /// message or not.
    spec fn leaves(&self, msg: M) -> M;

    /// Takes the message out of `msg` and offers it to the mailbox, without
    /// waiting. A holder that carries no message for this mailbox is an
    /// error.
    fn try_any_enqueue(&self, msg: &mut M, sender: Option<ActorUri>) -> (r: Result<(), ()>)
        ensures
            *final(msg) == self.leaves(*old(msg)),
            !self.carries(*old(msg)) ==> r is Err,
    ;

    /// Sets the flag to `b` and returns what it was, in one atomic exchange.
    fn set_sched(&self, b: bool) -> (previous: bool);

    /// Whether a run of the actor is requested and not yet done.
    fn is_sched(&self) -> bool;
}

/// A mailbox takes its own messages from a slot that holds one or nothing.
impl<Msg: Message> AnySender<Option<Msg>> for MailboxSender<Msg> {
    /// A slot carries a message when it is not empty.
    open spec fn carries(&self, msg: Option<Msg>) -> bool {
        msg is Some
    }

    /// An enqueue leaves the slot empty.
    open spec fn leaves(&self, msg: Option<Msg>) -> Option<Msg> {
        None
    }

    /// Empties the slot and offers what was in it to the mailbox. An empty
    /// slot has nothing to offer, and that is an error.
    fn try_any_enqueue(&self, msg: &mut Option<Msg>, sender: Option<ActorUri>) -> (r: Result<
        (),
        (),
    >) {
        match msg.take() {
            Some(actual) => match self.try_enqueue(Envelope { msg: actual, sender }) {
                Ok(()) => Ok(()),
                Err(_) => Err(()),
            },
            None => Err(()),
        }
    }

    fn set_sched(&self, b: bool) -> (previous: bool) {
        self.set_scheduled(b)
    }

    fn is_sched(&self) -> bool {
        self.is_scheduled()
    }
}

} // verus!

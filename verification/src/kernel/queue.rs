//! The mailbox queue.
//!
//! A queue has a producer end, [`QueueWriter`], which any number of threads
//! may share, and a consumer end, [`QueueReader`]. The consumer can ask
//! whether a message is waiting without losing it: a message that such a
//! check pulls out of the channel is kept in a one-place lookahead buffer and
//! is the first to be handed out afterwards.
//!
//! The channel between the two ends is shared, so what it holds at a given
//! moment is not described here. The contracts of the consumer are stated
//! relative to the channel: they say what becomes of a message once the
//! channel has given it to the reader. [`Feed`] puts a reader and a
//! first-in-first-out channel together, and the lemmas on it say what a
//! consumer then sees: its messages, in the order in which they were sent,
//! whatever checks for messages it makes in between.
use vstd::prelude::*;

use crate::kernel::channel::{Backend, Channel, ChannelRecv};
use crate::{Envelope, Message};

verus! {

/// A message that did not go into the queue, handed back to its producer.
#[derive(Clone, Debug)]
pub struct EnqueueError<T> {
    pub msg: T,
}

/// What an enqueue returns.
pub type EnqueueResult<Msg> = Result<(), EnqueueError<Envelope<Msg>>>;

/// The queue had nothing to hand out.
pub struct QueueEmpty;

/// What a dequeue returns.
pub type DequeueResult<Msg> = Result<Msg, QueueEmpty>;

/// The state of a reader as its consumer sees it.
pub struct ReaderView<T> {
    /// The messages handed to the consumer so far, oldest first.
    pub delivered: Seq<T>,
    /// The message that a check for messages has pulled out of the channel
    /// and that has not been handed out yet.
    pub lookahead: Option<T>,
}

impl<T> ReaderView<T> {
    /// A reader that has not looked at its channel yet.
    pub open spec fn fresh() -> Self {
        ReaderView { delivered: Seq::empty(), lookahead: None }
    }

    /// Whether the next operation has to ask the channel.
    pub open spec fn asks_channel(self) -> bool {
        self.lookahead is None
    }

    /// The reader after a check for messages. `polled` is what the channel
    /// gives if it is asked. It is asked only when the lookahead is empty.
    pub open spec fn peek(self, polled: Option<T>) -> Self {
        if self.asks_channel() {
            ReaderView { delivered: self.delivered, lookahead: polled }
        } else {
            self
        }
    }

    /// The reader after a dequeue, with the message that it hands out. The
    /// lookahead goes first. `polled` is what the channel gives if it is asked.
    pub open spec fn take(self, polled: Option<T>) -> (Self, Option<T>) {
        match self.peek(polled).lookahead {
            Some(x) => (ReaderView { delivered: self.delivered.push(x), lookahead: None }, Some(x)),
            None => (self, None),
        }
    }
}

/// The message in a dequeue result, if there is one.
pub open spec fn handed_out<T>(r: DequeueResult<T>) -> Option<T> {
    match r {
        Ok(x) => Some(x),
        Err(_) => None,
    }
}

/// A reader together with the channel that feeds it, for reasoning about a run
/// of consumer operations. The channel is taken to hand out its messages
/// oldest first, as the channels of std and flume do.
pub struct Feed<T> {
    /// The reader.
    pub reader: ReaderView<T>,
    /// What the channel will hand out from now on, oldest first.
    pub channel: Seq<T>,
}

/// One operation of the consumer.
pub struct FeedStep {
    /// A dequeue, or else a check for messages.
    pub dequeue: bool,
    /// Whether the oldest message of the channel has arrived when the
    /// operation asks for it.
    pub arrived: bool,
}

impl<T> Feed<T> {
    /// What the channel gives if it is asked now.
    pub open spec fn poll(self, arrived: bool) -> Option<T> {
        if arrived && self.channel.len() > 0 {
            Some(self.channel.first())
        } else {
            None
        }
    }

    /// The channel after an operation: without its oldest message if the
    /// operation asked and got it.
    pub open spec fn channel_after(self, arrived: bool) -> Seq<T> {
        if self.reader.asks_channel() && self.poll(arrived) is Some {
            self.channel.drop_first()
        } else {
            self.channel
        }
    }

    /// The run after a check for messages.
    pub open spec fn has_msgs(self, arrived: bool) -> Self {
        Feed { reader: self.reader.peek(self.poll(arrived)), channel: self.channel_after(arrived) }
    }

    /// The run after a dequeue, with the message handed out.
    pub open spec fn try_dequeue(self, arrived: bool) -> (Self, Option<T>) {
        let (reader, out) = self.reader.take(self.poll(arrived));
        (Feed { reader, channel: self.channel_after(arrived) }, out)
    }

    /// Every message that is still to be handed out, in the order in which
    /// the producer sent them: the lookahead, then the channel.
    pub open spec fn pending(self) -> Seq<T> {
        match self.reader.lookahead {
            Some(x) => seq![x] + self.channel,
            None => self.channel,
        }
    }

    /// The run after the given operations, one after the other.
    pub open spec fn replay(self, steps: Seq<FeedStep>) -> Self
        decreases steps.len(),
    {
        if steps.len() == 0 {
            self
        } else {
            let step = steps.first();
            let next = if step.dequeue {
                self.try_dequeue(step.arrived).0
            } else {
                self.has_msgs(step.arrived)
            };
            next.replay(steps.drop_first())
        }
    }
}

/// A check for messages is not destructive: it hands nothing out, and the
/// messages still to be handed out stay the same, in the same order. So the
/// next dequeue returns what it would have returned without the check.
pub proof fn lemma_has_msgs_keeps_pending<T>(feed: Feed<T>, arrived: bool)
    ensures
        feed.has_msgs(arrived).pending() == feed.pending(),
        feed.has_msgs(arrived).reader.delivered == feed.reader.delivered,
{
    let after = feed.has_msgs(arrived);
    if feed.reader.asks_channel() && feed.poll(arrived) is Some {
        assert(after.pending() =~= feed.pending());
    }
}

/// A check that found a message makes every further check, up to the next
/// dequeue, find that same message: the channel is not asked again, so no
/// message is reported as newly arrived twice.
pub proof fn lemma_has_msgs_twice<T>(feed: Feed<T>, first: bool, second: bool)
    requires
        feed.has_msgs(first).reader.lookahead is Some,
    ensures
        feed.has_msgs(first).has_msgs(second) == feed.has_msgs(first),
{
}

/// A dequeue hands out the oldest message that is still pending, and leaves
/// the others pending in their order. It comes back empty-handed only when
/// the lookahead is empty and the channel gives nothing, and then it changes
/// nothing.
pub proof fn lemma_try_dequeue_takes_oldest<T>(feed: Feed<T>, arrived: bool)
    ensures
        match feed.try_dequeue(arrived).1 {
            Some(x) => {
                &&& feed.pending().len() > 0
                &&& x == feed.pending().first()
                &&& feed.try_dequeue(arrived).0.pending() == feed.pending().drop_first()
                &&& feed.try_dequeue(arrived).0.reader.delivered == feed.reader.delivered.push(x)
            },
            None => {
                &&& feed.try_dequeue(arrived).0 == feed
                &&& feed.reader.lookahead is None
                &&& !arrived || feed.channel.len() == 0
            },
        },
{
    let (after, out) = feed.try_dequeue(arrived);
    match out {
        Some(x) => {
            assert(after.pending() =~= feed.pending().drop_first());
        },
        None => {},
    }
}

/// First in, first out: whatever checks and dequeues a consumer makes, and
/// however late the messages arrive, what it has been handed followed by what
/// is still pending is always the same sequence. Nothing is lost, doubled or
/// reordered.
pub proof fn lemma_replay_keeps_order<T>(feed: Feed<T>, steps: Seq<FeedStep>)
    ensures
        feed.replay(steps).reader.delivered + feed.replay(steps).pending()
            == feed.reader.delivered + feed.pending(),
    decreases steps.len(),
{
    if steps.len() > 0 {
        let step = steps.first();
        let next = if step.dequeue {
            feed.try_dequeue(step.arrived).0
        } else {
            feed.has_msgs(step.arrived)
        };
        lemma_has_msgs_keeps_pending(feed, step.arrived);
        lemma_try_dequeue_takes_oldest(feed, step.arrived);
        lemma_replay_keeps_order(next, steps.drop_first());
        assert(next.reader.delivered + next.pending() =~= feed.reader.delivered + feed.pending());
    }
}

/// Whether every operation of the run is a check for messages.
pub open spec fn only_checks(steps: Seq<FeedStep>) -> bool {
    forall|i: int| 0 <= i < steps.len() ==> !(#[trigger] steps[i]).dequeue
}

/// Checks for messages, however many, never change what the next dequeue
/// returns: it is the oldest message that was pending before the checks, if
/// there was one.
pub proof fn lemma_checks_then_dequeue<T>(feed: Feed<T>, checks: Seq<FeedStep>)
    requires
        only_checks(checks),
        feed.pending().len() > 0,
    ensures
        feed.replay(checks).try_dequeue(true).1 == Some(feed.pending().first()),
        feed.replay(checks).reader.delivered == feed.reader.delivered,
    decreases checks.len(),
{
    if checks.len() > 0 {
        let step = checks.first();
        assert(step == checks[0]);
        let next = feed.has_msgs(step.arrived);
        lemma_has_msgs_keeps_pending(feed, step.arrived);
        assert(only_checks(checks.drop_first())) by {
            assert forall|i: int| 0 <= i < checks.drop_first().len() implies !(
            #[trigger] checks.drop_first()[i]).dequeue by {
                assert(checks.drop_first()[i] == checks[i + 1]);
            }
        }
        lemma_checks_then_dequeue(next, checks.drop_first());
    } else {
        lemma_try_dequeue_takes_oldest(feed, true);
    }
}

/// As many dequeues as there are messages, each finding its message arrived.
pub open spec fn dequeues(n: nat) -> Seq<FeedStep> {
    Seq::new(n, |i: int| FeedStep { dequeue: true, arrived: true })
}

/// A consumer that dequeues as often as its producer has sent, with every
/// message arrived, is handed exactly what was sent, in the order in which it
/// was sent, and leaves nothing behind.
pub proof fn lemma_drain<T>(feed: Feed<T>)
    ensures
        feed.replay(dequeues(feed.pending().len())).reader.delivered == feed.reader.delivered
            + feed.pending(),
        feed.replay(dequeues(feed.pending().len())).pending().len() == 0,
    decreases feed.pending().len(),
{
    let n = feed.pending().len();
    let steps = dequeues(n);
    if n > 0 {
        let (next, out) = feed.try_dequeue(true);
        lemma_try_dequeue_takes_oldest(feed, true);
        assert(steps.drop_first() =~= dequeues((n - 1) as nat));
        lemma_drain(next);
        assert(feed.reader.delivered.push(out->Some_0) + feed.pending().drop_first()
            =~= feed.reader.delivered + feed.pending());
    } else {
        assert(feed.reader.delivered + feed.pending() =~= feed.reader.delivered);
    }
}

/// A consumer that starts on a channel holding `sent` is handed a prefix of
/// `sent`: the messages come out in the exact order in which they went in,
/// whatever checks for messages run in between.
pub proof fn lemma_fifo<T>(sent: Seq<T>, steps: Seq<FeedStep>)
    ensures
        ({
            let end = Feed { reader: ReaderView::<T>::fresh(), channel: sent }.replay(steps);
            end.reader.delivered.is_prefix_of(sent)
        }),
{
    let start = Feed { reader: ReaderView::<T>::fresh(), channel: sent };
    lemma_replay_keeps_order(start, steps);
    let end = start.replay(steps);
    assert(start.reader.delivered + start.pending() =~= sent);
    assert(end.reader.delivered =~= sent.subrange(0, end.reader.delivered.len() as int)) by {
        assert((end.reader.delivered + end.pending()).subrange(
            0,
            end.reader.delivered.len() as int,
        ) =~= end.reader.delivered);
    }
}

/// The producer end of a queue. Clones share the queue.
#[derive(Clone)]
#[verifier::reject_recursive_types(Msg)]
pub struct QueueWriter<Msg: Message> {
    tx: Channel<Envelope<Msg>>,
}

impl<Msg: Message> QueueWriter<Msg> {
    /// The channel end that this writer sends on.
    pub closed spec fn channel(self) -> Channel<Envelope<Msg>> {
        self.tx
    }

    /// A writer on the given channel end.
    pub fn new(tx: Channel<Envelope<Msg>>) -> (w: Self)
        ensures
            w.channel() == tx,
    {
        QueueWriter { tx }
    }

    /// Offers `msg` to the queue and returns at once. When the queue is
    /// bounded and full, or its reader is gone, the message comes back
    /// unchanged inside the error.
    pub fn try_enqueue(&self, msg: Envelope<Msg>) -> (r: EnqueueResult<Msg>)
        ensures
            r matches Err(e) ==> e.msg == msg,
    {
        self.tx.send(msg)
    }
}

/// The consumer end of a queue in the hands of one owner: the channel end and
/// the lookahead buffer.
#[verifier::reject_recursive_types(Msg)]
pub struct QueueReaderInner<Msg: Message> {
    rx: ChannelRecv<Envelope<Msg>>,
    next_item: Option<Envelope<Msg>>,
    delivered: Ghost<Seq<Envelope<Msg>>>,
}

impl<Msg: Message> View for QueueReaderInner<Msg> {
    type V = ReaderView<Envelope<Msg>>;

    closed spec fn view(&self) -> ReaderView<Envelope<Msg>> {
        ReaderView { delivered: self.delivered@, lookahead: self.next_item }
    }
}

impl<Msg: Message> QueueReaderInner<Msg> {
    /// A reader on the given channel end, with nothing handed out and nothing
    /// buffered.
    pub fn new(rx: ChannelRecv<Envelope<Msg>>) -> (r: Self)
        ensures
            r@ == ReaderView::<Envelope<Msg>>::fresh(),
    {
        QueueReaderInner { rx, next_item: None, delivered: Ghost(Seq::empty()) }
    }

    /// Puts what a poll of the channel brought into the empty lookahead, and
    /// says whether that was a message.
    pub fn stash(&mut self, polled: Option<Envelope<Msg>>) -> (found: bool)
        requires
            old(self)@.asks_channel(),
        ensures
            final(self)@ == old(self)@.peek(polled),
            found == (polled is Some),
    {
        self.next_item = polled;
        self.next_item.is_some()
    }

    /// Hands out `item`, which the reader has just taken from its lookahead or
    /// from the channel.
    pub fn serve(&mut self, item: Option<Envelope<Msg>>) -> (r: DequeueResult<Envelope<Msg>>)
        requires
            old(self)@.asks_channel(),
        ensures
            (final(self)@, handed_out(r)) == old(self)@.take(item),
    {
        match item {
            Some(x) => {
                proof {
                    self.delivered@ = self.delivered@.push(x);
                }
                Ok(x)
            },
            None => Err(QueueEmpty),
        }
    }

    /// Whether a message is waiting. A message that this check pulls out of
    /// the channel stays in the lookahead: nothing is handed out, and while
    /// the lookahead is occupied the channel is not asked again.
    pub fn has_msgs(&mut self) -> (found: bool)
        ensures
            final(self)@ == old(self)@.peek(final(self)@.lookahead),
            found == (final(self)@.lookahead is Some),
    {
        if self.next_item.is_some() {
            true
        } else {
            let polled = match self.rx.try_recv() {
                Ok(item) => Some(item),
                Err(_) => None,
            };
            self.stash(polled)
        }
    }

    /// Hands out the next message without waiting: the one in the lookahead
    /// if there is one, else what the channel has ready. Fails only when the
    /// lookahead is empty and the channel gives nothing.
    pub fn try_dequeue(&mut self) -> (r: DequeueResult<Envelope<Msg>>)
        ensures
            old(self)@.take(handed_out(r)) == (final(self)@, handed_out(r)),
    {
        let buffered = self.next_item.take();
        if buffered.is_some() {
            self.serve(buffered)
        } else {
            let polled = match self.rx.try_recv() {
                Ok(item) => Some(item),
                Err(_) => None,
            };
            self.serve(polled)
        }
    }

    /// Hands out the next message, waiting for one if need be: the one in the
    /// lookahead if there is one, else the next that the channel delivers.
    /// Fails only when the lookahead is empty and the channel is closed and
    /// drained.
    pub fn dequeue(&mut self) -> (r: DequeueResult<Envelope<Msg>>)
        ensures
            old(self)@.take(handed_out(r)) == (final(self)@, handed_out(r)),
    {
        let buffered = self.next_item.take();
        if buffered.is_some() {
            self.serve(buffered)
        } else {
            let polled = match self.rx.recv() {
                Ok(item) => Some(item),
                Err(_) => None,
            };
            self.serve(polled)
        }
    }
}

/// `std::sync::Mutex`, the lock around the consumer end. Carried as an opaque
/// value.
#[verifier::external_type_specification]
#[verifier::external_body]
#[verifier::reject_recursive_types(T)]
pub struct ExMutex<T: ?Sized>(std::sync::Mutex<T>);

/// `std::sync::MutexGuard`, which holds the lock until it is dropped. Carried
/// as an opaque value.
#[verifier::external_type_specification]
#[verifier::external_body]
#[verifier::reject_recursive_types(T)]
pub struct ExMutexGuard<'a, T: ?Sized + 'a>(std::sync::MutexGuard<'a, T>);

/// `Mutex::new` of std puts a value behind a new lock. Nothing is claimed of
/// the lock.
pub assume_specification<T>[ std::sync::Mutex::<T>::new ](t: T) -> (m: std::sync::Mutex<T>);

/// Calls `Mutex::lock` of std, which waits until the lock is free, and returns
/// the guard. Where a holder of the lock panicked, std hands the guard out
/// inside an error. It is taken from there, so that the call returns a guard
/// in either case: nothing that runs under this lock leaves the reader
/// half-changed. std leaves open what `lock` does in a thread that holds the
/// lock already; the callers below take the lock once and hold no guard when
/// they do. Nothing is claimed of the guard.
#[verifier::external_body]
fn lock<'a, T>(m: &'a std::sync::Mutex<T>) -> (guard: std::sync::MutexGuard<'a, T>) {
    match m.lock() {
        Ok(guard) => guard,
        Err(poisoned) => poisoned.into_inner(),
    }
}

/// Calls `DerefMut::deref_mut` of std's `MutexGuard`: access to the value
/// behind the lock for as long as the guard is borrowed. Nothing is claimed
/// of the value.
#[verifier::external_body]
fn guarded<'a, 'b, T>(guard: &'a mut std::sync::MutexGuard<'b, T>) -> (value: &'a mut T) {
    std::ops::DerefMut::deref_mut(guard)
}

/// The consumer end of a queue. It may be shared: each operation takes the
/// lock around the channel end and the lookahead for as long as it runs. What
/// an operation does under the lock is what the operation of the same name
/// does on [`QueueReaderInner`]. What the reader holds at a given moment is
/// known only to the holder of the lock, so the operations here promise
/// nothing of their results: another holder may have run in between.
#[verifier::reject_recursive_types(Msg)]
pub struct QueueReader<Msg: Message> {
    inner: std::sync::Mutex<QueueReaderInner<Msg>>,
    initial: Ghost<ReaderView<Envelope<Msg>>>,
}

impl<Msg: Message> QueueReader<Msg> {
    /// The state in which the reader went behind its lock.
    pub closed spec fn initial(self) -> ReaderView<Envelope<Msg>> {
        self.initial@
    }

    /// Puts a reader behind a lock, as it is: with what it has handed out so
    /// far and with what its lookahead holds.
    pub fn new(inner: QueueReaderInner<Msg>) -> (r: Self)
        ensures
            r.initial() == inner@,
    {
        let initial = Ghost(inner@);
        QueueReader { inner: std::sync::Mutex::new(inner), initial }
    }

    /// Hands out the next message, waiting for one if need be. The lock is
    /// held while it waits. Fails only when the lookahead is empty and the
    /// channel is closed and drained.
    pub fn dequeue(&self) -> (r: DequeueResult<Envelope<Msg>>) {
        let mut guard = lock(&self.inner);
        let inner = guarded(&mut guard);
        inner.dequeue()
    }

    /// Hands out the next message without waiting: the one in the lookahead
    /// if there is one, else what the channel has ready.
    pub fn try_dequeue(&self) -> (r: DequeueResult<Envelope<Msg>>) {
        let mut guard = lock(&self.inner);
        let inner = guarded(&mut guard);
        inner.try_dequeue()
    }

    /// Whether a message is waiting. A message that this check pulls out of
    /// the channel is not lost: it is the next to be handed out.
    pub fn has_msgs(&self) -> (found: bool) {
        let mut guard = lock(&self.inner);
        let inner = guarded(&mut guard);
        inner.has_msgs()
    }
}

/// The two channel ends of a new queue. With `bound` zero the channel is
/// unbounded; else it holds up to `bound` messages.
pub fn channel_ends<T>(bound: usize, backend: Backend) -> (ends: (Channel<T>, ChannelRecv<T>))
    ensures
        backend == Backend::Flume ==> ends.0 is Flume && ends.1 is Flume,
        backend == Backend::Std && bound > 0 ==> ends.0 is Bounded && ends.1 is Std,
        backend == Backend::Std && bound == 0 ==> ends.0 is Unbounded && ends.1 is Std,
{
    match backend {
        Backend::Flume => {
            if bound > 0 {
                let (tx, rx) = flume::bounded::<T>(bound);
                (Channel::Flume(tx), ChannelRecv::Flume(rx))
            } else {
                let (tx, rx) = flume::unbounded::<T>();
                (Channel::Flume(tx), ChannelRecv::Flume(rx))
            }
        },
        Backend::Std => {
            if bound > 0 {
                let (tx, rx) = std::sync::mpsc::sync_channel::<T>(bound);
                (Channel::Bounded(tx), ChannelRecv::Std(rx))
            } else {
                let (tx, rx) = std::sync::mpsc::channel::<T>();
                (Channel::Unbounded(tx), ChannelRecv::Std(rx))
            }
        },
    }
}

/// A new queue over the chosen backend. With `bound` zero the queue is
/// unbounded and an enqueue fails only when the reader is gone; else the queue
/// holds up to `bound` messages and an enqueue into a full queue fails at
/// once.
pub fn queue_with<Msg: Message>(bound: usize, backend: Backend) -> (ends: (
    QueueWriter<Msg>,
    QueueReader<Msg>,
))
    ensures
        backend == Backend::Flume ==> ends.0.channel() is Flume,
        backend == Backend::Std && bound > 0 ==> ends.0.channel() is Bounded,
        backend == Backend::Std && bound == 0 ==> ends.0.channel() is Unbounded,
        ends.1.initial() == ReaderView::<Envelope<Msg>>::fresh(),
{
    let (tx, rx) = channel_ends::<Envelope<Msg>>(bound, backend);
    let qw = QueueWriter::new(tx);
    let qr = QueueReader::new(QueueReaderInner::new(rx));
    (qw, qr)
}

/// A new queue over the channels of std. With `bound` zero the queue is
/// unbounded and an enqueue fails only when the reader is gone; else the queue
/// holds up to `bound` messages and an enqueue into a full queue fails at
/// once.
pub fn queue<Msg: Message>(bound: usize) -> (ends: (QueueWriter<Msg>, QueueReader<Msg>))
    ensures
        bound > 0 ==> ends.0.channel() is Bounded,
        bound == 0 ==> ends.0.channel() is Unbounded,
        ends.1.initial() == ReaderView::<Envelope<Msg>>::fresh(),
{
    queue_with(bound, Backend::Std)
}

} // verus!

use vstd::prelude::*;
use crate::messages::TransactionRecord;

verus! {

/// What became of an item offered to a [`BoundedChannel`].
pub enum SendOutcome<T> {
    /// The item was queued.
    Sent,
    /// The channel holds as many items as its capacity allows: the sender must
    /// wait for the consumer. The item is handed back.
    Full(T),
    /// The receiving half was closed: the sender should stop. The item is
    /// handed back.
    Closed(T),
}

/// What a [`BoundedChannel`] gives to its consumer.
pub enum ReceiveOutcome<T> {
    /// The oldest queued item.
    Item(T),
    /// Nothing is queued yet, but the sender may still send: the consumer must wait.
    Empty,
    /// The sender has closed its half and every item has been delivered.
    EndOfStream,
}

/// Both halves of one tokio bounded `mpsc` channel of history records, held
/// together by a call that runs its producer and consumer in turn on one
/// thread.
#[verifier::external_body]
pub struct RecordQueue {
    tx: Option<tokio::sync::mpsc::Sender<TransactionRecord>>,
    rx: tokio::sync::mpsc::Receiver<TransactionRecord>,
}

/// The records buffered in a queue, oldest first.
pub uninterp spec fn queue_items(q: RecordQueue) -> Seq<TransactionRecord>;

/// The bound the queue was created with.
pub uninterp spec fn queue_bound(q: RecordQueue) -> nat;

/// True while the sending half has not been dropped.
pub uninterp spec fn queue_sending(q: RecordQueue) -> bool;

/// True until the receiving half is closed.
pub uninterp spec fn queue_receiving(q: RecordQueue) -> bool;

/// Relies on tokio::sync::mpsc::channel: a new channel with both halves open,
/// empty, with `capacity` permits (it panics on a capacity of 0, and on one
/// above `usize::MAX >> 3`, the most permits its semaphore can hold).
#[verifier::external_body]
fn queue_new(capacity: usize) -> (q: RecordQueue)
    requires
        0 < capacity <= usize::MAX >> 3,
    ensures
        queue_items(q) == Seq::<TransactionRecord>::empty(),
        queue_bound(q) == capacity,
        queue_sending(q),
        queue_receiving(q),
{
    let (tx, rx) = tokio::sync::mpsc::channel(capacity);
    RecordQueue { tx: Some(tx), rx }
}

/// Relies on tokio::sync::mpsc::Sender::try_send: `Closed` once the receiver
/// is closed, else `Full` when no permit is left (one permit per buffered
/// record, returned by each receive), else the record is appended.
#[verifier::external_body]
fn queue_try_send(q: &mut RecordQueue, item: TransactionRecord) -> (r: SendOutcome<
    TransactionRecord,
>)
    requires
        queue_sending(*old(q)),
        queue_items(*old(q)).len() <= queue_bound(*old(q)),
    ensures
        !queue_receiving(*old(q)) ==> r == SendOutcome::Closed(item) && *final(q) == *old(q),
        queue_receiving(*old(q)) && queue_items(*old(q)).len() == queue_bound(*old(q)) ==> r
            == SendOutcome::Full(item) && *final(q) == *old(q),
        queue_receiving(*old(q)) && queue_items(*old(q)).len() < queue_bound(*old(q)) ==> {
            &&& r is Sent
            &&& queue_items(*final(q)) == queue_items(*old(q)).push(item)
            &&& queue_bound(*final(q)) == queue_bound(*old(q))
            &&& queue_sending(*final(q)) == queue_sending(*old(q))
            &&& queue_receiving(*final(q)) == queue_receiving(*old(q))
        },
{
    match q.tx.as_ref().unwrap().try_send(item) {
        Ok(()) => SendOutcome::Sent,
        Err(tokio::sync::mpsc::error::TrySendError::Full(x)) => SendOutcome::Full(x),
        Err(tokio::sync::mpsc::error::TrySendError::Closed(x)) => SendOutcome::Closed(x),
    }
}

/// Relies on tokio::sync::mpsc::Receiver::try_recv: the oldest buffered
/// record if any; else `Empty` while the sender lives, `Disconnected` once
/// it is dropped.
#[verifier::external_body]
fn queue_try_recv(q: &mut RecordQueue) -> (r: ReceiveOutcome<TransactionRecord>)
    requires
        queue_receiving(*old(q)),
    ensures
        queue_items(*old(q)).len() > 0 ==> {
            &&& r == ReceiveOutcome::Item(queue_items(*old(q))[0])
            &&& queue_items(*final(q)) == queue_items(*old(q)).drop_first()
            &&& queue_bound(*final(q)) == queue_bound(*old(q))
            &&& queue_sending(*final(q)) == queue_sending(*old(q))
            &&& queue_receiving(*final(q)) == queue_receiving(*old(q))
        },
        queue_items(*old(q)).len() == 0 && queue_sending(*old(q)) ==> r is Empty && *final(q)
            == *old(q),
        queue_items(*old(q)).len() == 0 && !queue_sending(*old(q)) ==> r is EndOfStream
            && *final(q) == *old(q),
{
    match q.rx.try_recv() {
        Ok(x) => ReceiveOutcome::Item(x),
        Err(tokio::sync::mpsc::error::TryRecvError::Empty) => ReceiveOutcome::Empty,
        Err(tokio::sync::mpsc::error::TryRecvError::Disconnected) => ReceiveOutcome::EndOfStream,
    }
}

/// Relies on dropping tokio::sync::mpsc::Sender: with the only sender gone,
/// the receiver drains what is buffered and then sees the channel disconnected.
#[verifier::external_body]
fn queue_close_sender(q: &mut RecordQueue)
    ensures
        !queue_sending(*final(q)),
        queue_items(*final(q)) == queue_items(*old(q)),
        queue_bound(*final(q)) == queue_bound(*old(q)),
        queue_receiving(*final(q)) == queue_receiving(*old(q)),
{
    q.tx = None;
}

/// Relies on tokio::sync::mpsc::Receiver::close: later sends fail as closed;
/// buffered records stay.
#[verifier::external_body]
fn queue_close_receiver(q: &mut RecordQueue)
    ensures
        !queue_receiving(*final(q)),
        queue_items(*final(q)) == queue_items(*old(q)),
        queue_bound(*final(q)) == queue_bound(*old(q)),
        queue_sending(*final(q)) == queue_sending(*old(q)),
{
    q.rx.close();
}

/// A fixed-capacity FIFO conduit of history records from one producer to
/// one consumer, over a tokio bounded channel.
///
/// Sending suspends (here: reports `Full`) while the channel is full and fails
/// once the receiving half is closed; receiving suspends (reports `Empty`)
/// while nothing is queued and reports end of stream once the sending half is
/// closed and drained. Ghost state records every item ever accepted and every
/// item ever delivered.
pub struct BoundedChannel {
    queue: RecordQueue,
    capacity: usize,
    queued: usize,
    sender_open: bool,
    receiver_open: bool,
    sent: Ghost<Seq<TransactionRecord>>,
    delivered: Ghost<Seq<TransactionRecord>>,
}

impl BoundedChannel {
    /// Items queued and not yet delivered, oldest first.
    pub closed spec fn queued(&self) -> Seq<TransactionRecord> {
        queue_items(self.queue)
    }

    /// The most items that can be queued at once.
    pub closed spec fn cap(&self) -> nat {
        self.capacity as nat
    }

    pub closed spec fn sender_open(&self) -> bool {
        self.sender_open
    }

    pub closed spec fn receiver_open(&self) -> bool {
        self.receiver_open
    }

    /// Every item that a send accepted, in the order of the sends.
    pub closed spec fn sent(&self) -> Seq<TransactionRecord> {
        self.sent@
    }

    /// Every item that a receive handed out, in the order of the receives.
    pub closed spec fn delivered(&self) -> Seq<TransactionRecord> {
        self.delivered@
    }

    pub closed spec fn wf(&self) -> bool {
        &&& 0 < self.capacity
        &&& queue_items(self.queue).len() <= self.capacity
        &&& queue_bound(self.queue) == self.capacity
        &&& self.queued == queue_items(self.queue).len()
        &&& queue_sending(self.queue) == self.sender_open
        &&& queue_receiving(self.queue) == self.receiver_open
        &&& self.sent@ == self.delivered@ + queue_items(self.queue)
    }

    /// True when the consumer has seen the end of the stream, or would see it
    /// on its next receive.
    pub open spec fn drained(&self) -> bool {
        !self.sender_open() && self.queued().len() == 0
    }

    /// A channel with both halves open that can hold `capacity` items.
    pub fn new(capacity: usize) -> (ch: Self)
        requires
            0 < capacity <= usize::MAX >> 3,
        ensures
            ch.wf(),
            ch.cap() == capacity,
            ch.queued() == Seq::<TransactionRecord>::empty(),
            ch.sent() == Seq::<TransactionRecord>::empty(),
            ch.delivered() == Seq::<TransactionRecord>::empty(),
            ch.sender_open(),
            ch.receiver_open(),
    {
        BoundedChannel {
            queue: queue_new(capacity),
            queued: 0,
            capacity,
            sender_open: true,
            receiver_open: true,
            sent: Ghost(Seq::empty()),
            delivered: Ghost(Seq::empty()),
        }
    }

    pub fn capacity(&self) -> (r: usize)
        ensures
            r == self.cap(),
    {
        self.capacity
    }

    pub fn len(&self) -> (r: usize)
        requires
            self.wf(),
        ensures
            r == self.queued().len(),
    {
        self.queued
    }

    /// True while the sending half has not been closed.
    pub fn is_sender_open(&self) -> (r: bool)
        ensures
            r == self.sender_open(),
    {
        self.sender_open
    }

    /// True once the receiving half has been closed.
    pub fn is_closed(&self) -> (r: bool)
        ensures
            r == !self.receiver_open(),
    {
        !self.receiver_open
    }

    /// Offers `item` to the consumer.
    pub fn try_send(&mut self, item: TransactionRecord) -> (r: SendOutcome<TransactionRecord>)
        requires
            old(self).wf(),
            old(self).sender_open(),
        ensures
            final(self).wf(),
            !old(self).receiver_open() ==> r == SendOutcome::Closed(item) && *final(self)
                == *old(self),
            old(self).receiver_open() && old(self).queued().len() == old(self).cap() ==> r
                == SendOutcome::Full(item) && *final(self) == *old(self),
            old(self).receiver_open() && old(self).queued().len() < old(self).cap() ==> {
                &&& r is Sent
                &&& final(self).queued() == old(self).queued().push(item)
                &&& final(self).sent() == old(self).sent().push(item)
                &&& final(self).delivered() == old(self).delivered()
                &&& final(self).cap() == old(self).cap()
                &&& final(self).sender_open() == old(self).sender_open()
                &&& final(self).receiver_open() == old(self).receiver_open()
            },
    {
        let ghost before = queue_items(self.queue);
        let r = queue_try_send(&mut self.queue, item);
        if let SendOutcome::Sent = r {
            self.queued = self.queued + 1;
            proof {
                self.sent@ = self.sent@.push(item);
                assert(self.sent@ =~= self.delivered@ + before.push(item));
            }
        }
        r
    }

    /// Takes the oldest queued item, if any.
    pub fn try_receive(&mut self) -> (r: ReceiveOutcome<TransactionRecord>)
        requires
            old(self).wf(),
            old(self).receiver_open(),
        ensures
            final(self).wf(),
            old(self).queued().len() > 0 ==> {
                &&& r == ReceiveOutcome::Item(old(self).queued()[0])
                &&& old(self).queued()[0] == old(self).sent()[old(self).delivered().len() as int]
                &&& final(self).queued() == old(self).queued().drop_first()
                &&& final(self).delivered() == old(self).delivered().push(old(self).queued()[0])
                &&& final(self).sent() == old(self).sent()
                &&& final(self).cap() == old(self).cap()
                &&& final(self).sender_open() == old(self).sender_open()
                &&& final(self).receiver_open() == old(self).receiver_open()
            },
            old(self).queued().len() == 0 && old(self).sender_open() ==> r is Empty && *final(self)
                == *old(self),
            old(self).queued().len() == 0 && !old(self).sender_open() ==> {
                &&& r is EndOfStream
                &&& *final(self) == *old(self)
                &&& final(self).delivered() == final(self).sent()
            },
    {
        let ghost before = queue_items(self.queue);
        let r = queue_try_recv(&mut self.queue);
        if let ReceiveOutcome::Item(_) = r {
            self.queued = self.queued - 1;
            proof {
                let item = before[0];
                self.delivered@ = self.delivered@.push(item);
                assert(before =~= seq![item] + queue_items(self.queue));
                assert(self.sent@ =~= self.delivered@ + queue_items(self.queue));
            }
        } else {
            proof {
                if before.len() == 0 {
                    assert(self.delivered@ + before =~= self.delivered@);
                }
            }
        }
        r
    }

    /// Drops the sending half: the consumer sees end of stream once the
    /// queued items are delivered.
    pub fn close_sender(&mut self)
        requires
            old(self).wf(),
        ensures
            final(self).wf(),
            !final(self).sender_open(),
            final(self).receiver_open() == old(self).receiver_open(),
            final(self).queued() == old(self).queued(),
            final(self).sent() == old(self).sent(),
            final(self).delivered() == old(self).delivered(),
            final(self).cap() == old(self).cap(),
    {
        queue_close_sender(&mut self.queue);
        self.sender_open = false;
    }

    /// Closes the receiving half (the caller went away): every later send
    /// fails. Items still queued are abandoned.
    pub fn close_receiver(&mut self)
        requires
            old(self).wf(),
        ensures
            final(self).wf(),
            !final(self).receiver_open(),
            final(self).sender_open() == old(self).sender_open(),
            final(self).queued() == old(self).queued(),
            final(self).sent() == old(self).sent(),
            final(self).delivered() == old(self).delivered(),
            final(self).cap() == old(self).cap(),
    {
        queue_close_receiver(&mut self.queue);
        self.receiver_open = false;
    }

    /// Whatever the capacity and however sends and receives interleave, the
    /// items delivered so far are the first items sent, in the order they
    /// were sent; the rest wait in the queue, never more than the capacity;
    /// and once the stream is drained every sent item has been delivered
    /// exactly once.
    pub proof fn lemma_fifo_delivery(&self)
        requires
            self.wf(),
        ensures
            self.sent() == self.delivered() + self.queued(),
            self.delivered().len() <= self.sent().len(),
            forall|i: int|
                0 <= i < self.delivered().len() ==> #[trigger] self.delivered()[i]
                    == self.sent()[i],
            0 < self.cap(),
            self.queued().len() <= self.cap(),
            self.drained() ==> self.delivered() == self.sent(),
    {
        if self.drained() {
            assert(self.delivered@ + queue_items(self.queue) =~= self.delivered@);
        }
    }
}

} // verus!

use vstd::prelude::*;
use vstd::string::StringExecFns;
use crate::channel::{BoundedChannel, ReceiveOutcome, SendOutcome};
use crate::messages::{
    decimal,
    decimal_string,
    TransactionRecord,
    TransactionRecordView,
    TransactionRequest,
};

verus! {

/// Records in one transaction history.
pub const HISTORY_LENGTH: u64 = 30;

/// The producer pauses after every this many records.
pub const PAUSE_EVERY: u64 = 10;

/// Length of each pause, in seconds.
pub const PAUSE_SECONDS: u64 = 1;

/// Capacity of the channel between the producer and the outbound stream.
pub const HISTORY_CHANNEL_CAPACITY: usize = 4;

/// The `i`th record of a history (counting from 1).
pub open spec fn history_record(i: nat) -> TransactionRecordView {
    TransactionRecordView { transaction_id: "txn"@ + decimal(i), amount: 10 * i }
}

/// Builds the `i`th record of a history.
pub fn history_record_at(i: u64) -> (r: TransactionRecord)
    requires
        i <= u64::MAX / 10,
    ensures
        r@ == history_record(i as nat),
{
    let transaction_id = String::from_str("txn").concat(decimal_string(i).as_str());
    TransactionRecord { transaction_id, amount: i * 10 }
}

/// What the history producer does next.
pub enum ProducerStep {
    /// Send this record into the channel.
    Emit(TransactionRecord),
    /// Wait before producing more.
    Pause,
    /// Produce nothing more; drop the sending half.
    Stop,
}

/// Decisions of the server-streaming history producer: it emits records
/// `1..=total` in order, pauses after every `pause_every` of them, and stops
/// for good as soon as a send fails.
pub struct HistoryProducer {
    next: u64,
    total: u64,
    pause_every: u64,
    pause_due: bool,
    stopped: bool,
}

impl HistoryProducer {
    /// Records emitted so far.
    pub closed spec fn emitted(&self) -> nat {
        (self.next - 1) as nat
    }

    pub closed spec fn total(&self) -> nat {
        self.total as nat
    }

    pub closed spec fn pause_every(&self) -> nat {
        self.pause_every as nat
    }

    pub closed spec fn pause_due(&self) -> bool {
        self.pause_due
    }

    /// True once a send has failed.
    pub closed spec fn stopped(&self) -> bool {
        self.stopped
    }

    pub closed spec fn wf(&self) -> bool {
        &&& 1 <= self.next <= self.total + 1
        &&& self.total <= u64::MAX / 10
    }

    /// True when the producer has nothing more to do.
    pub open spec fn finished(&self) -> bool {
        self.stopped() || (!self.pause_due() && self.emitted() == self.total())
    }

    /// Records emitted so far.
    pub fn records_emitted(&self) -> (r: u64)
        requires
            self.wf(),
        ensures
            r == self.emitted(),
    {
        self.next - 1
    }

    /// True when the producer has nothing more to do.
    pub fn is_finished(&self) -> (r: bool)
        requires
            self.wf(),
        ensures
            r == self.finished(),
    {
        self.stopped || (!self.pause_due && self.next - 1 == self.total)
    }

    /// A producer of `total` records that pauses after every `pause_every`
    /// of them (never, when `pause_every` is 0).
    pub fn new(total: u64, pause_every: u64) -> (p: Self)
        requires
            total <= u64::MAX / 10,
        ensures
            p.wf(),
            p.emitted() == 0,
            p.total() == total,
            p.pause_every() == pause_every,
            !p.pause_due(),
            !p.stopped(),
    {
        HistoryProducer { next: 1, total, pause_every, pause_due: false, stopped: false }
    }

    /// The next thing to do.
    pub fn next_step(&self) -> (r: ProducerStep)
        requires
            self.wf(),
        ensures
            self.finished() ==> r is Stop,
            !self.stopped() && self.pause_due() ==> r is Pause,
            !self.finished() && !self.pause_due() ==> (r matches ProducerStep::Emit(rec) && rec@
                == history_record(self.emitted() + 1)),
    {
        if self.stopped {
            ProducerStep::Stop
        } else if self.pause_due {
            ProducerStep::Pause
        } else if self.next > self.total {
            ProducerStep::Stop
        } else {
            ProducerStep::Emit(history_record_at(self.next))
        }
    }

    /// The record of the last `Emit` was accepted by the channel.
    pub fn on_sent(&mut self)
        requires
            old(self).wf(),
            !old(self).finished(),
            !old(self).pause_due(),
        ensures
            final(self).wf(),
            final(self).emitted() == old(self).emitted() + 1,
            final(self).total() == old(self).total(),
            final(self).pause_every() == old(self).pause_every(),
            final(self).pause_due() == (old(self).pause_every() > 0 && final(self).emitted()
                % old(self).pause_every() == 0),
            !final(self).stopped(),
    {
        self.pause_due = self.pause_every > 0 && self.next % self.pause_every == 0;
        self.next = self.next + 1;
    }

    /// The pause asked for has been taken.
    pub fn on_paused(&mut self)
        requires
            old(self).wf(),
        ensures
            final(self).wf(),
            !final(self).pause_due(),
            final(self).emitted() == old(self).emitted(),
            final(self).total() == old(self).total(),
            final(self).pause_every() == old(self).pause_every(),
            final(self).stopped() == old(self).stopped(),
    {
        self.pause_due = false;
    }

    /// The last send failed because the caller is gone: stop for good.
    pub fn on_send_failed(&mut self)
        requires
            old(self).wf(),
        ensures
            final(self).wf(),
            final(self).stopped(),
            final(self).finished(),
            final(self).emitted() == old(self).emitted(),
            final(self).total() == old(self).total(),
    {
        self.stopped = true;
    }
}

/// The server-streaming transaction history handler.
#[derive(Clone, Copy, Debug, Default)]
pub struct MyTransactionService;

impl MyTransactionService {
    pub fn new() -> (s: Self) {
        MyTransactionService
    }

    /// Starts a history call: the producer that the call's background task runs.
    pub fn get_transaction_history(&self, _request: &TransactionRequest) -> (p: HistoryProducer)
        ensures
            p.wf(),
            p.emitted() == 0,
            p.total() == HISTORY_LENGTH,
            p.pause_every() == PAUSE_EVERY,
            !p.pause_due(),
            !p.stopped(),
    {
        HistoryProducer::new(HISTORY_LENGTH, PAUSE_EVERY)
    }
}

} // verus!

verus! {

/// One server-streaming history call run cooperatively: the producer fills a
/// bounded channel until it is full, pauses or stops, and the consumer drains
/// it. When the consumer disconnects, the producer's next send fails and it
/// stops.
pub struct HistoryCall {
    producer: HistoryProducer,
    channel: BoundedChannel,
}

impl HistoryCall {
    pub closed spec fn producer(&self) -> HistoryProducer {
        self.producer
    }

    pub closed spec fn channel(&self) -> BoundedChannel {
        self.channel
    }

    /// Records the producer has sent into the channel.
    pub open spec fn emitted(&self) -> nat {
        self.channel().sent().len()
    }

    /// Records the consumer has received.
    pub open spec fn received(&self) -> nat {
        self.channel().delivered().len()
    }

    /// True while the consumer is attached.
    pub open spec fn connected(&self) -> bool {
        self.channel().receiver_open()
    }

    pub closed spec fn wf(&self) -> bool {
        &&& self.producer.wf()
        &&& self.channel.wf()
        &&& self.channel.sent().len() == self.producer.emitted()
        &&& forall|i: int|
            0 <= i < self.channel.sent().len() ==> #[trigger] self.channel.sent()[i]@
                == history_record((i + 1) as nat)
        &&& !self.channel.sender_open() ==> self.producer.finished()
        &&& self.channel.receiver_open() ==> !self.producer.stopped()
    }

    /// A call whose producer has not started yet, feeding a channel of
    /// `capacity` items.
    pub fn new(producer: HistoryProducer, capacity: usize) -> (c: Self)
        requires
            producer.wf(),
            producer.emitted() == 0,
            !producer.stopped(),
            0 < capacity <= usize::MAX >> 3,
        ensures
            c.wf(),
            c.producer() == producer,
            c.channel().cap() == capacity,
            c.emitted() == 0,
            c.received() == 0,
            c.connected(),
            c.channel().sender_open(),
    {
        HistoryCall { producer, channel: BoundedChannel::new(capacity) }
    }

    /// Why a producer run that started at `before` may end: the channel is
    /// full, every record is sent and the sending half closed, or the
    /// producer took a pause that was due.
    pub open spec fn yielded_since(&self, before: HistoryCall) -> bool {
        let pe = self.producer().pause_every();
        ||| self.channel().queued().len() == self.channel().cap()
        ||| !self.channel().sender_open() && self.emitted() == self.producer().total()
        ||| before.producer().pause_due() && self.emitted() == before.emitted()
        ||| self.emitted() > before.emitted() && pe > 0 && self.emitted() % pe == 0
    }

    /// Records the producer has sent into the channel.
    pub fn records_emitted(&self) -> (r: u64)
        requires
            self.wf(),
        ensures
            r == self.emitted(),
    {
        self.producer.records_emitted()
    }

    /// True when the producer has nothing more to do.
    pub fn producer_finished(&self) -> (r: bool)
        requires
            self.wf(),
        ensures
            r == self.producer().finished(),
    {
        self.producer.is_finished()
    }

    /// Runs the producer until it blocks on a full channel, pauses, or stops.
    /// Once the consumer is gone it sends nothing more and stops.
    pub fn run_producer(&mut self)
        requires
            old(self).wf(),
        ensures
            final(self).wf(),
            final(self).received() == old(self).received(),
            final(self).connected() == old(self).connected(),
            final(self).channel().cap() == old(self).channel().cap(),
            final(self).producer().total() == old(self).producer().total(),
            final(self).emitted() >= old(self).emitted(),
            !old(self).connected() ==> {
                &&& final(self).emitted() == old(self).emitted()
                &&& final(self).producer().finished()
                &&& !final(self).channel().sender_open()
            },
            old(self).connected() ==> final(self).yielded_since(*old(self)),
            old(self).connected() ==> !final(self).producer().pause_due(),
    {
        if !self.channel.is_sender_open() {
            return;
        }
        loop
            invariant
                self.wf(),
                self.producer().pause_every() == old(self).producer().pause_every(),
                old(self).connected() && self.producer().pause_due() ==> {
                    ||| old(self).producer().pause_due() && self.emitted() == old(self).emitted()
                    ||| self.emitted() > old(self).emitted() && self.producer().pause_every() > 0
                        && self.emitted() % self.producer().pause_every() == 0
                },
                old(self).connected() && !old(self).producer().pause_due() ==> !self.producer().pause_due() || self.emitted() > old(self).emitted(),
                self.channel.sender_open(),
                self.received() == old(self).received(),
                self.connected() == old(self).connected(),
                self.channel().cap() == old(self).channel().cap(),
                self.producer().total() == old(self).producer().total(),
                self.emitted() >= old(self).emitted(),
                !old(self).connected() ==> self.emitted() == old(self).emitted(),
            decreases
                self.producer.total() - self.producer.emitted(),
                if self.producer.pause_due() {
                    1int
                } else {
                    0int
                },
        {
            match self.producer.next_step() {
                ProducerStep::Stop => {
                    self.channel.close_sender();
                    return;
                },
                ProducerStep::Pause => {
                    self.producer.on_paused();
                    if !self.channel.is_closed() {
                        return ;
                    }
                },
                ProducerStep::Emit(record) => {
                    proof {
                        self.channel.lemma_fifo_delivery();
                    }
                    match self.channel.try_send(record) {
                        SendOutcome::Sent => {
                            self.producer.on_sent();
                        },
                        SendOutcome::Full(_) => {
                            return ;
                        },
                        SendOutcome::Closed(_) => {
                            self.producer.on_send_failed();
                            self.channel.close_sender();
                            return ;
                        },
                    }
                },
            }
        }
    }

    /// The consumer's next read: the records arrive as `txn1`, `txn2`, ...
    /// with no gap and no repeat, and the stream ends only after all of them.
    pub fn receive(&mut self) -> (r: ReceiveOutcome<TransactionRecord>)
        requires
            old(self).wf(),
            old(self).connected(),
        ensures
            final(self).wf(),
            final(self).connected(),
            final(self).emitted() == old(self).emitted(),
            final(self).channel().cap() == old(self).channel().cap(),
            final(self).producer() == old(self).producer(),
            r matches ReceiveOutcome::Item(x) ==> x@ == history_record(old(self).received() + 1)
                && final(self).received() == old(self).received() + 1,
            !(r is Item) ==> final(self).received() == old(self).received(),
            r is EndOfStream ==> final(self).received() == old(self).producer().total(),
            old(self).channel().queued().len() > 0 ==> r is Item && final(self).received()
                == old(self).received() + 1,
            old(self).channel().queued().len() == 0 && old(self).channel().sender_open() ==> r is Empty,
            old(self).channel().queued().len() == 0 && !old(self).channel().sender_open() ==> r is EndOfStream,
            r is EndOfStream ==> final(self).received() == final(self).emitted(),
            final(self).channel().sender_open() == old(self).channel().sender_open(),
            final(self).channel().queued().len() == old(self).channel().queued().len() - (if r is Item {
                1int
            } else {
                0int
            }),
    {
        proof {
            self.channel.lemma_fifo_delivery();
        }
        let r = self.channel.try_receive();
        proof {
            self.channel.lemma_fifo_delivery();
        }
        r
    }

    /// The consumer's whole side of a call: alternately lets the producer
    /// run and reads, until end of stream. It always gets there, with the
    /// full history `txn1` to `txn<total>` in order.
    pub fn drain(&mut self) -> (records: Vec<TransactionRecord>)
        requires
            old(self).wf(),
            old(self).connected(),
            old(self).received() == 0,
        ensures
            final(self).wf(),
            final(self).connected(),
            final(self).channel().drained(),
            final(self).producer().total() == old(self).producer().total(),
            records@.len() == old(self).producer().total(),
            records@.len() == final(self).emitted(),
            forall|i: int|
                0 <= i < records@.len() ==> #[trigger] records@[i]@ == history_record(
                    (i + 1) as nat,
                ),
    {
        let mut records: Vec<TransactionRecord> = Vec::new();
        loop
            invariant
                self.wf(),
                self.connected(),
                self.producer().total() == old(self).producer().total(),
                records@.len() == self.received(),
                forall|i: int|
                    0 <= i < records@.len() ==> #[trigger] records@[i]@ == history_record(
                        (i + 1) as nat,
                    ),
            decreases
                (self.producer().total() - self.received()) + (self.producer().total()
                    - self.emitted()) + if self.producer().pause_due() {
                    1int
                } else {
                    0int
                },
        {
            proof {
                self.lemma_bounded_lead();
            }
            self.run_producer();
            proof {
                self.lemma_bounded_lead();
            }
            match self.receive() {
                ReceiveOutcome::Item(x) => {
                    records.push(x);
                },
                ReceiveOutcome::Empty => {},
                ReceiveOutcome::EndOfStream => {
                    proof {
                        self.lemma_drained_stream_is_full_history();
                    }
                    return records;
                },
            }
            proof {
                self.lemma_bounded_lead();
            }
        }
    }

    /// The consumer goes away: every later send of the producer fails.
    pub fn disconnect(&mut self)
        requires
            old(self).wf(),
        ensures
            final(self).wf(),
            !final(self).connected(),
            final(self).emitted() == old(self).emitted(),
            final(self).received() == old(self).received(),
            final(self).channel().cap() == old(self).channel().cap(),
            final(self).producer() == old(self).producer(),
    {
        self.channel.close_receiver();
    }

    /// At every moment, attached or not, the producer is ahead of the
    /// consumer by at most the channel's capacity, and the records received
    /// so far are `txn1`, `txn2`, ... in order.
    pub proof fn lemma_bounded_lead(&self)
        requires
            self.wf(),
        ensures
            0 < self.channel().cap(),
            self.emitted() <= self.producer().total(),
            self.received() <= self.emitted(),
            self.emitted() <= self.received() + self.channel().cap(),
            self.emitted() == self.received() + self.channel().queued().len(),
            forall|i: int|
                0 <= i < self.received() ==> #[trigger] self.channel().delivered()[i]@
                    == history_record((i + 1) as nat),
            forall|i: int|
                0 <= i < self.emitted() ==> #[trigger] self.channel().sent()[i]@
                    == history_record((i + 1) as nat),
    {
        self.channel.lemma_fifo_delivery();
        assert forall|i: int| 0 <= i < self.received() implies #[trigger] self.channel().delivered()[i]@
            == history_record((i + 1) as nat) by {
            assert(self.channel.sent()[i] == self.channel.delivered()[i]);
        }
    }

    /// Whatever the channel's capacity and however the consumer paced its
    /// reads, a stream read to its end delivered exactly the full history:
    /// `txn1` to `txn<total>`, each once, in order.
    pub proof fn lemma_drained_stream_is_full_history(&self)
        requires
            self.wf(),
            self.connected(),
            self.channel().drained(),
        ensures
            self.received() == self.producer().total(),
            self.received() == self.emitted(),
            forall|i: int|
                0 <= i < self.received() ==> #[trigger] self.channel().delivered()[i]@
                    == history_record((i + 1) as nat),
    {
        self.lemma_bounded_lead();
    }

    /// After the consumer has received `j` records and disconnected, the
    /// producer has sent at most `j` plus the channel's capacity records in
    /// all (so at most `j + 1` with a channel of capacity one), and it sends
    /// none after that.
    pub proof fn lemma_disconnect_bounds_emission(&self)
        requires
            self.wf(),
            !self.connected(),
        ensures
            self.emitted() <= self.received() + self.channel().cap(),
            self.channel().cap() == 1 ==> self.emitted() <= self.received() + 1,
    {
        self.channel.lemma_fifo_delivery();
    }
}

} // verus!

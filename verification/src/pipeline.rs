//! The dispatcher core: per-kind bounded queues and the routing rules
//! of the ingestion pipeline.
//!
//! This is the decision logic of the pipeline — what a send does to a
//! queue, what a consumer observes and in which order, when a producer
//! must wait and when a consumer sees end-of-stream.  The blocking
//! itself (socket reads, waiting on a full or empty queue) is the
//! caller's loop: it performs an action, hands the outcome back, and
//! these functions decide the next step.

use vstd::prelude::*;

verus! {

/// The kind of a raw datagram, and of the queue it is routed to.
#[derive(Debug, PartialEq, Eq, Copy, Clone, Structural)]
pub enum PacketKind {
    /// A LIDAR packet.
    Lidar,
    /// An IMU packet.
    Imu,
}

/// One raw datagram on its way from a source adapter to a queue: the
/// UDP payload and its kind tag.
#[derive(Debug, PartialEq, Eq, Clone)]
pub struct RawDatagram {
    /// The datagram's payload bytes.
    pub payload: Vec<u8>,
    /// Which queue the datagram belongs to.
    pub kind: PacketKind,
}

/// Capacity of every per-kind queue: small and fixed, tuned to absorb
/// brief consumer stalls without unbounded growth.
pub const CHANNEL_BUFFER_SIZE: usize = 32;

/// What a send did to the queue.
#[derive(Debug)]
pub enum SendOutcome {
    /// The datagram was appended to the queue.
    Sent,
    /// The queue is full; the datagram comes back so the producer can
    /// wait and retry (backpressure, no silent drop).
    Full(Vec<u8>),
    /// The queue is closed; the datagram comes back.  The caller logs
    /// and skips it — a dropped consumer never halts a producer.
    Closed(Vec<u8>),
}

/// What a receive observed.
#[derive(Debug)]
pub enum RecvOutcome {
    /// The oldest queued datagram.
    Item(Vec<u8>),
    /// The queue is empty but still open; the consumer waits.
    Empty,
    /// The queue is closed and drained; the consumer exits cleanly.
    EndOfStream,
}

/// A per-kind bounded queue: many producers, at most one active
/// consumer.  Consumer observation order equals producer send order.
#[derive(Debug)]
pub struct PacketSink {
    items: Vec<Vec<u8>>,
    capacity: usize,
    closed: bool,
}

impl PacketSink {
    /// The queued payloads, oldest first.
    pub closed spec fn contents(self) -> Seq<Vec<u8>> {
        self.items@
    }

    /// The queue's fixed capacity.
    pub closed spec fn cap(self) -> usize {
        self.capacity
    }

    /// True once every producer is done with the queue.
    pub closed spec fn is_closed(self) -> bool {
        self.closed
    }

    /// The queue never holds more than its capacity.
    pub closed spec fn wf(self) -> bool {
        self.capacity > 0 && self.items@.len() <= self.capacity
    }

    /// A fresh queue: empty, open, bounded by `capacity`.
    pub fn new(capacity: usize) -> (q: Self)
        requires
            capacity > 0,
        ensures
            q.wf(),
            q.contents() == Seq::<Vec<u8>>::empty(),
            q.cap() == capacity,
            !q.is_closed(),
    {
        PacketSink { items: Vec::new(), capacity, closed: false }
    }

    /// Number of queued datagrams.
    pub fn len(&self) -> (n: usize)
        ensures
            n == self.contents().len(),
    {
        self.items.len()
    }

    /// True when a send would report the queue full.
    pub fn is_full(&self) -> (r: bool)
        ensures
            r == (self.contents().len() >= self.cap()),
    {
        self.items.len() >= self.capacity
    }

    /// Append a datagram.  Exactly one of three things happens: the
    /// queue is closed and hands the datagram back; the queue is full
    /// and hands it back for a blocking retry; or the datagram joins
    /// the back of the queue and nothing else changes.
    pub fn send(&mut self, payload: Vec<u8>) -> (r: SendOutcome)
        requires
            old(self).wf(),
        ensures
            final(self).wf(),
            final(self).cap() == old(self).cap(),
            final(self).is_closed() == old(self).is_closed(),
            old(self).is_closed() ==> r == SendOutcome::Closed(payload) && final(self).contents()
                == old(self).contents(),
            !old(self).is_closed() && old(self).contents().len() >= old(self).cap() ==> r
                == SendOutcome::Full(payload) && final(self).contents() == old(self).contents(),
            !old(self).is_closed() && old(self).contents().len() < old(self).cap() ==> r
                == SendOutcome::Sent && final(self).contents() == old(self).contents().push(
                payload,
            ),
    {
        if self.closed {
            SendOutcome::Closed(payload)
        } else if self.items.len() >= self.capacity {
            SendOutcome::Full(payload)
        } else {
            self.items.push(payload);
            SendOutcome::Sent
        }
    }

    /// Take the oldest datagram.  An empty open queue asks the consumer
    /// to wait; an empty closed queue is end-of-stream; otherwise the
    /// front leaves the queue and the rest keep their order.
    pub fn recv(&mut self) -> (r: RecvOutcome)
        requires
            old(self).wf(),
        ensures
            final(self).wf(),
            final(self).cap() == old(self).cap(),
            final(self).is_closed() == old(self).is_closed(),
            old(self).contents().len() > 0 ==> r == RecvOutcome::Item(old(self).contents()[0])
                && final(self).contents() == old(self).contents().drop_first(),
            old(self).contents().len() == 0 && !old(self).is_closed() ==> r == RecvOutcome::Empty
                && final(self).contents() == old(self).contents(),
            old(self).contents().len() == 0 && old(self).is_closed() ==> r
                == RecvOutcome::EndOfStream && final(self).contents() == old(self).contents(),
    {
        if self.items.len() == 0 {
            if self.closed {
                RecvOutcome::EndOfStream
            } else {
                RecvOutcome::Empty
            }
        } else {
            let payload = self.items.remove(0);
            proof {
                assert(self.items@ =~= old(self).items@.drop_first());
            }
            RecvOutcome::Item(payload)
        }
    }

    /// Close the queue: producers are done; the consumer may still
    /// drain what is queued, then observes end-of-stream.
    pub fn close(&mut self)
        requires
            old(self).wf(),
        ensures
            final(self).wf(),
            final(self).cap() == old(self).cap(),
            final(self).is_closed(),
            final(self).contents() == old(self).contents(),
    {
        self.closed = true;
    }

    /// Law: consumer observation order equals producer send order.
    /// [`Self::send`] appends exactly when the queue has room and
    /// [`Self::recv`] takes exactly the front, so a queue holding `q0`
    /// into which `sent` was sent in order delivers all of `q0` first
    /// and then every element of `sent`, in send order.
    pub proof fn lemma_fifo_order(q0: Seq<Vec<u8>>, sent: Seq<Vec<u8>>)
        ensures
            forall|i: int| 0 <= i < q0.len() ==> (q0 + sent)[i] == q0[i],
            forall|i: int| 0 <= i < sent.len() ==> (q0 + sent)[q0.len() + i] == sent[i],
            forall|i: int| 0 <= i < sent.len() ==> (q0 + sent).skip(q0.len() + i).first()
                == sent[i],
    {
        assert forall|i: int| 0 <= i < sent.len() implies (q0 + sent).skip(q0.len() + i).first()
            == sent[i] by {
            assert((q0 + sent).skip(q0.len() + i)[0] == (q0 + sent)[q0.len() + i]);
        }
    }
}

/// The dispatcher: owns at most one bounded queue per kind, created
/// lazily on first attach of a producer or consumer.  Producers hold
/// only the right to send, the single consumer per kind only the right
/// to receive.
#[derive(Debug)]
pub struct Client {
    lidar: Option<PacketSink>,
    imu: Option<PacketSink>,
}

impl Client {
    /// The queue of `kind`, if it was attached yet.
    pub closed spec fn queue(self, kind: PacketKind) -> Option<PacketSink> {
        match kind {
            PacketKind::Lidar => self.lidar,
            PacketKind::Imu => self.imu,
        }
    }

    /// True when `kind`'s queue exists.
    pub closed spec fn has_queue(self, kind: PacketKind) -> bool {
        self.queue(kind) is Some
    }

    /// Every existing queue is well formed.
    pub closed spec fn wf(self) -> bool {
        &&& (self.lidar matches Some(q) ==> q.wf())
        &&& (self.imu matches Some(q) ==> q.wf())
    }

    /// A fresh dispatcher with no queues.
    pub fn new() -> (c: Self)
        ensures
            c.wf(),
            !c.has_queue(PacketKind::Lidar),
            !c.has_queue(PacketKind::Imu),
    {
        Client { lidar: None, imu: None }
    }

    /// Attach to the LIDAR queue, creating it on first use; an
    /// already-attached queue is left exactly as it is.
    pub fn lidar_channel_or_new(&mut self)
        requires
            old(self).wf(),
        ensures
            final(self).wf(),
            final(self).has_queue(PacketKind::Lidar),
            old(self).has_queue(PacketKind::Lidar) ==> *final(self) == *old(self),
            !old(self).has_queue(PacketKind::Lidar) ==> {
                &&& final(self).queue(PacketKind::Lidar) matches Some(q) && q.contents()
                    == Seq::<Vec<u8>>::empty() && q.cap() == CHANNEL_BUFFER_SIZE && !q.is_closed()
                &&& final(self).queue(PacketKind::Imu) == old(self).queue(PacketKind::Imu)
            },
    {
        if self.lidar.is_none() {
            self.lidar = Some(PacketSink::new(CHANNEL_BUFFER_SIZE));
        }
    }

    /// Attach to the IMU queue, creating it on first use; an
    /// already-attached queue is left exactly as it is.
    pub fn imu_channel_or_new(&mut self)
        requires
            old(self).wf(),
        ensures
            final(self).wf(),
            final(self).has_queue(PacketKind::Imu),
            old(self).has_queue(PacketKind::Imu) ==> *final(self) == *old(self),
            !old(self).has_queue(PacketKind::Imu) ==> {
                &&& final(self).queue(PacketKind::Imu) matches Some(q) && q.contents()
                    == Seq::<Vec<u8>>::empty() && q.cap() == CHANNEL_BUFFER_SIZE && !q.is_closed()
                &&& final(self).queue(PacketKind::Lidar) == old(self).queue(PacketKind::Lidar)
            },
    {
        if self.imu.is_none() {
            self.imu = Some(PacketSink::new(CHANNEL_BUFFER_SIZE));
        }
    }

    /// Send one datagram to its kind's queue, which must be attached.
    /// The other kind's queue is untouched; the outcome and the queue's
    /// new contents are exactly those of [`PacketSink::send`].
    pub fn send(&mut self, kind: PacketKind, payload: Vec<u8>) -> (r: SendOutcome)
        requires
            old(self).wf(),
            old(self).has_queue(kind),
        ensures
            final(self).wf(),
            final(self).has_queue(kind),
            ({
                let q0 = old(self).queue(kind)->Some_0;
                let q1 = final(self).queue(kind)->Some_0;
                &&& q1.cap() == q0.cap()
                &&& q1.is_closed() == q0.is_closed()
                &&& q0.is_closed() ==> r == SendOutcome::Closed(payload) && q1.contents()
                    == q0.contents()
                &&& !q0.is_closed() && q0.contents().len() >= q0.cap() ==> r == SendOutcome::Full(
                    payload,
                ) && q1.contents() == q0.contents()
                &&& !q0.is_closed() && q0.contents().len() < q0.cap() ==> r == SendOutcome::Sent
                    && q1.contents() == q0.contents().push(payload)
            }),
            kind != PacketKind::Lidar ==> final(self).queue(PacketKind::Lidar) == old(self).queue(
                PacketKind::Lidar,
            ),
            kind != PacketKind::Imu ==> final(self).queue(PacketKind::Imu) == old(self).queue(
                PacketKind::Imu,
            ),
    {
        match kind {
            PacketKind::Lidar => match &mut self.lidar {
                Some(q) => q.send(payload),
                None => SendOutcome::Closed(payload),
            },
            PacketKind::Imu => match &mut self.imu {
                Some(q) => q.send(payload),
                None => SendOutcome::Closed(payload),
            },
        }
    }

    /// Receive one datagram from `kind`'s queue, which must be
    /// attached.  The other kind's queue is untouched; the outcome and
    /// the queue's new contents are exactly those of
    /// [`PacketSink::recv`].
    pub fn recv(&mut self, kind: PacketKind) -> (r: RecvOutcome)
        requires
            old(self).wf(),
            old(self).has_queue(kind),
        ensures
            final(self).wf(),
            final(self).has_queue(kind),
            ({
                let q0 = old(self).queue(kind)->Some_0;
                let q1 = final(self).queue(kind)->Some_0;
                &&& q1.cap() == q0.cap()
                &&& q1.is_closed() == q0.is_closed()
                &&& q0.contents().len() > 0 ==> r == RecvOutcome::Item(q0.contents()[0])
                    && q1.contents() == q0.contents().drop_first()
                &&& q0.contents().len() == 0 && !q0.is_closed() ==> r == RecvOutcome::Empty
                    && q1.contents() == q0.contents()
                &&& q0.contents().len() == 0 && q0.is_closed() ==> r == RecvOutcome::EndOfStream
                    && q1.contents() == q0.contents()
            }),
            kind != PacketKind::Lidar ==> final(self).queue(PacketKind::Lidar) == old(self).queue(
                PacketKind::Lidar,
            ),
            kind != PacketKind::Imu ==> final(self).queue(PacketKind::Imu) == old(self).queue(
                PacketKind::Imu,
            ),
    {
        match kind {
            PacketKind::Lidar => match &mut self.lidar {
                Some(q) => q.recv(),
                None => RecvOutcome::EndOfStream,
            },
            PacketKind::Imu => match &mut self.imu {
                Some(q) => q.recv(),
                None => RecvOutcome::EndOfStream,
            },
        }
    }

    /// Close `kind`'s queue: its producers are done.  The consumer may
    /// still drain it, then observes end-of-stream.
    pub fn close(&mut self, kind: PacketKind)
        requires
            old(self).wf(),
            old(self).has_queue(kind),
        ensures
            final(self).wf(),
            final(self).has_queue(kind),
            ({
                let q0 = old(self).queue(kind)->Some_0;
                let q1 = final(self).queue(kind)->Some_0;
                q1.cap() == q0.cap() && q1.is_closed() && q1.contents() == q0.contents()
            }),
            kind != PacketKind::Lidar ==> final(self).queue(PacketKind::Lidar) == old(self).queue(
                PacketKind::Lidar,
            ),
            kind != PacketKind::Imu ==> final(self).queue(PacketKind::Imu) == old(self).queue(
                PacketKind::Imu,
            ),
    {
        match kind {
            PacketKind::Lidar => match &mut self.lidar {
                Some(q) => q.close(),
                None => (),
            },
            PacketKind::Imu => match &mut self.imu {
                Some(q) => q.close(),
                None => (),
            },
        }
    }
}

} // verus!

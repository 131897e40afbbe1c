//! Relaying bytes between a socket of the host and one of the guest.
//!
//! Each direction is a [`Relay`] of its own, run by a thread that performs
//! the transfers and reports what came of them.
use vstd::prelude::*;
use vstd::slice::slice_subrange;

verus! {

/// How many bytes are read at once.
pub const CHUNK: usize = 8192;

/// Which way the bytes go.
#[derive(Debug, Clone, Copy, PartialEq, Eq, Structural)]
pub enum Direction {
    /// From the guest to the host. At the end the host's socket is told that
    /// nothing more will come.
    GuestToHost,
    /// From the host to the guest.
    HostToGuest,
}

/// What is done next.
#[derive(Debug, Clone, Copy, PartialEq, Eq, Structural)]
pub enum RelayStage {
    /// Read some bytes.
    Read,
    /// Write the pending bytes, or some of them.
    Write,
    /// Shut the writing side of the host's socket down. Whether that succeeds
    /// does not matter.
    ShutdownWrite,
    /// Nothing more is done.
    Done,
}

/// What came of a transfer, over sequences.
pub enum TransferView {
    /// These bytes were read; none at the end of the stream.
    Received(Seq<u8>),
    /// This many bytes were written.
    Sent(usize),
    /// The transfer failed.
    Failed,
    /// The writing side was shut down.
    ShutDown,
}

/// What came of a transfer.
#[derive(Debug)]
pub enum Transfer {
    Received(Vec<u8>),
    Sent(usize),
    Failed,
    ShutDown,
}

impl View for Transfer {
    type V = TransferView;

    open spec fn view(&self) -> TransferView {
        match *self {
            Transfer::Received(bytes) => TransferView::Received(bytes@),
            Transfer::Sent(n) => TransferView::Sent(n),
            Transfer::Failed => TransferView::Failed,
            Transfer::ShutDown => TransferView::ShutDown,
        }
    }
}

/// One direction of a relayed connection.
#[derive(Debug)]
pub struct Relay {
    direction: Direction,
    stage: RelayStage,
    chunk: Vec<u8>,
    offset: usize,
}

/// A [`Relay`] over sequences.
#[verifier::ext_equal]
pub struct RelayView {
    pub direction: Direction,
    pub stage: RelayStage,
    /// The bytes that were read and are not written yet.
    pub pending: Seq<u8>,
}

impl View for Relay {
    type V = RelayView;

    closed spec fn view(&self) -> RelayView {
        RelayView {
            direction: self.direction,
            stage: self.stage,
            pending: self.chunk@.skip(self.offset as int),
        }
    }
}

impl RelayView {
    /// The relay once it has come to its end.
    pub open spec fn ended(self) -> RelayView {
        RelayView {
            stage: match self.direction {
                Direction::GuestToHost => RelayStage::ShutdownWrite,
                Direction::HostToGuest => RelayStage::Done,
            },
            ..self
        }
    }
}

/// The relay before its first transfer.
pub open spec fn fresh_relay(direction: Direction) -> RelayView {
    RelayView { direction, stage: RelayStage::Read, pending: Seq::empty() }
}

/// The relay after a transfer. It ends with the stream, with a failure, and
/// where a write takes nothing; what does not belong to the stage changes
/// nothing.
pub open spec fn relay_step(v: RelayView, t: TransferView) -> RelayView {
    match (v.stage, t) {
        (RelayStage::Read, TransferView::Received(bytes)) => if bytes.len() == 0 {
            v.ended()
        } else {
            RelayView { stage: RelayStage::Write, pending: bytes, ..v }
        },
        (RelayStage::Write, TransferView::Sent(n)) => if n == 0 {
            v.ended()
        } else if n >= v.pending.len() {
            RelayView { stage: RelayStage::Read, pending: Seq::empty(), ..v }
        } else {
            RelayView { pending: v.pending.skip(n as int), ..v }
        },
        (RelayStage::Read, TransferView::Failed) => v.ended(),
        (RelayStage::Write, TransferView::Failed) => v.ended(),
        (RelayStage::ShutdownWrite, _) => RelayView { stage: RelayStage::Done, ..v },
        _ => v,
    }
}

impl Relay {
    /// Whether the offset lies within the chunk.
    #[verifier::type_invariant]
    spec fn well_formed(self) -> bool {
        self.offset <= self.chunk@.len()
    }

    /// A relay before its first transfer.
    pub fn new(direction: Direction) -> (r: Self)
        ensures
            r@ == fresh_relay(direction),
    {
        let r = Relay { direction, stage: RelayStage::Read, chunk: Vec::new(), offset: 0 };
        assert(r@.pending =~= Seq::empty());
        r
    }

    /// What is done next.
    pub fn stage(&self) -> (r: RelayStage)
        ensures
            r == self@.stage,
    {
        self.stage
    }

    /// The bytes to write next.
    pub fn pending(&self) -> (r: &[u8])
        ensures
            r@ == self@.pending,
    {
        proof {
            use_type_invariant(self);
        }
        let r = slice_subrange(self.chunk.as_slice(), self.offset, self.chunk.len());
        assert(r@ =~= self@.pending);
        r
    }

    fn ended(self) -> (r: Self)
        ensures
            r@ == self@.ended(),
    {
        proof {
            use_type_invariant(&self);
        }
        let stage = match self.direction {
            Direction::GuestToHost => RelayStage::ShutdownWrite,
            Direction::HostToGuest => RelayStage::Done,
        };
        Relay { direction: self.direction, stage, chunk: self.chunk, offset: self.offset }
    }

    /// Takes what came of a transfer.
    pub fn advance(self, t: Transfer) -> (r: Self)
        ensures
            r@ == relay_step(self@, t@),
    {
        proof {
            use_type_invariant(&self);
        }
        match (self.stage, t) {
            (RelayStage::Read, Transfer::Received(bytes)) => {
                if bytes.len() == 0 {
                    self.ended()
                } else {
                    let r = Relay {
                        direction: self.direction,
                        stage: RelayStage::Write,
                        chunk: bytes,
                        offset: 0,
                    };
                    assert(r@.pending =~= bytes@);
                    r
                }
            },
            (RelayStage::Write, Transfer::Sent(n)) => {
                let left: usize = self.chunk.len() - self.offset;
                if n == 0 {
                    self.ended()
                } else if n >= left {
                    let r = Relay {
                        direction: self.direction,
                        stage: RelayStage::Read,
                        chunk: Vec::new(),
                        offset: 0,
                    };
                    assert(r@.pending =~= Seq::empty());
                    r
                } else {
                    let offset: usize = self.offset + n;
                    let r = Relay {
                        direction: self.direction,
                        stage: self.stage,
                        chunk: self.chunk,
                        offset,
                    };
                    assert(r@.pending =~= self@.pending.skip(n as int));
                    r
                }
            },
            (RelayStage::Read, Transfer::Failed) => self.ended(),
            (RelayStage::Write, Transfer::Failed) => self.ended(),
            (RelayStage::ShutdownWrite, _) => Relay {
                direction: self.direction,
                stage: RelayStage::Done,
                chunk: self.chunk,
                offset: self.offset,
            },
            _ => self,
        }
    }
}

/// The bytes that a transfer brings in.
pub open spec fn taken_in(v: RelayView, t: TransferView) -> Seq<u8> {
    match (v.stage, t) {
        (RelayStage::Read, TransferView::Received(bytes)) => bytes,
        _ => Seq::empty(),
    }
}

/// The bytes that a transfer delivers.
pub open spec fn delivered(v: RelayView, t: TransferView) -> Seq<u8> {
    match (v.stage, t) {
        (RelayStage::Write, TransferView::Sent(n)) => if n >= v.pending.len() {
            v.pending
        } else {
            v.pending.take(n as int)
        },
        _ => Seq::empty(),
    }
}

/// The relay after several transfers.
pub open spec fn relay_run(v: RelayView, ts: Seq<TransferView>) -> RelayView
    decreases ts.len(),
{
    if ts.len() == 0 {
        v
    } else {
        relay_step(relay_run(v, ts.drop_last()), ts.last())
    }
}

/// All bytes that several transfers bring in, in order.
pub open spec fn total_in(v: RelayView, ts: Seq<TransferView>) -> Seq<u8>
    decreases ts.len(),
{
    if ts.len() == 0 {
        Seq::empty()
    } else {
        total_in(v, ts.drop_last()) + taken_in(relay_run(v, ts.drop_last()), ts.last())
    }
}

/// All bytes that several transfers deliver, in order.
pub open spec fn total_out(v: RelayView, ts: Seq<TransferView>) -> Seq<u8>
    decreases ts.len(),
{
    if ts.len() == 0 {
        Seq::empty()
    } else {
        total_out(v, ts.drop_last()) + delivered(relay_run(v, ts.drop_last()), ts.last())
    }
}

/// The bytes that were delivered, with the pending ones behind them, are the
/// bytes that were read: none is lost, repeated or reordered, wherever the
/// relay stands.
pub proof fn law_relay_conserves_bytes(direction: Direction, ts: Seq<TransferView>)
    ensures
        ({
            let v = fresh_relay(direction);
            let n = relay_run(v, ts);
            &&& total_out(v, ts) + n.pending == total_in(v, ts)
            &&& n.stage is Read ==> n.pending.len() == 0
            &&& n.direction == direction
        }),
    decreases ts.len(),
{
    let v = fresh_relay(direction);
    if ts.len() > 0 {
        let before = ts.drop_last();
        law_relay_conserves_bytes(direction, before);
        let m = relay_run(v, before);
        let n = relay_run(v, ts);
        let t = ts.last();
        assert(delivered(m, t) + n.pending =~= m.pending + taken_in(m, t));
        assert(total_out(v, ts) + n.pending =~= total_out(v, before) + (delivered(m, t)
            + n.pending));
        assert(total_in(v, ts) =~= total_out(v, before) + (m.pending + taken_in(m, t)));
    } else {
        assert(total_out(v, ts) + relay_run(v, ts).pending =~= total_in(v, ts));
    }
}

/// A relay that is done stays done; one from the guest to the host has shut
/// the host's socket down before.
pub proof fn law_relay_end_is_final(v: RelayView, t: TransferView)
    ensures
        v.stage is Done ==> relay_step(v, t) == v,
        v.direction == Direction::GuestToHost && !(v.stage is Done) && relay_step(
            v,
            t,
        ).stage is Done
            ==> v.stage is ShutdownWrite,
{
}

/// A relay goes on as long as bytes are read and written. It ends with the
/// stream, with a failure and where a write takes nothing. From the guest to
/// the host the host's socket is then told; the other way it is not.
pub proof fn law_relay_goes_on(v: RelayView, bytes: Seq<u8>, n: usize)
    ensures
        ({
            let end = match v.direction {
                Direction::GuestToHost => RelayStage::ShutdownWrite,
                Direction::HostToGuest => RelayStage::Done,
            };
            let read = relay_step(v, TransferView::Received(bytes));
            let sent = relay_step(v, TransferView::Sent(n));
            &&& v.stage is Read && bytes.len() > 0 ==> read.stage is Write && read.pending == bytes
            &&& v.stage is Read && bytes.len() == 0 ==> read.stage == end
            &&& v.stage is Write && n == 0 ==> sent.stage == end
            &&& v.stage is Write && 0 < n < v.pending.len() ==> sent.stage is Write && sent.pending
                == v.pending.skip(n as int)
            &&& v.stage is Write && n > 0 && n >= v.pending.len() ==> sent.stage is Read
            &&& v.stage is Read || v.stage is Write ==> relay_step(v, TransferView::Failed).stage
                == end
            &&& v.stage is ShutdownWrite ==> relay_step(v, TransferView::ShutDown).stage is Done
        }),
{
}

} // verus!

//! The packet proxy between `vmnet` and a virtual machine.
//!
//! One end of a socket pair belongs to the framework, the other is pumped to
//! and from `vmnet` by two threads. Every packet crosses one of the pumps,
//! which is where it is counted. [`RxStage`] and [`TxStage`] say what a pump
//! does next; the threads do it and report what came of it.
use vstd::prelude::*;

use super::network_metrics::{NetworkUsage, VmnetInterface};
use crate::error::{Error, ErrorView};
use crate::sys::vmnet::VmnetStartParams;
use crate::text::join2;
use crate::time::Timestamp;

verus! {

/// How many packets are read at once.
pub const READ_BATCH: usize = 64;

/// A counter that starts over at zero behind its largest value.
#[derive(Debug, Clone, Copy, PartialEq, Eq, Structural)]
pub struct Counter {
    pub value: u64,
}

/// A counter after `n` was added to it.
pub open spec fn counted(c: Counter, n: u64) -> Counter {
    Counter { value: ((c.value + n) % 0x1_0000_0000_0000_0000) as u64 }
}

impl Counter {
    /// Adds to the counter and returns what it held before.
    pub fn fetch_add(&mut self, n: u64) -> (r: u64)
        ensures
            r == old(self).value,
            *final(self) == counted(*old(self), n),
    {
        let before: u64 = self.value;
        self.value = before.wrapping_add(n);
        before
    }

    /// What the counter holds.
    pub fn load(&self) -> (r: u64)
        ensures
            r == self.value,
    {
        self.value
    }
}

/// The counters of one network device.
#[derive(Debug, Clone, Copy, PartialEq, Eq, Structural)]
pub struct NetworkCounters {
    pub rx_bytes: Counter,
    pub tx_bytes: Counter,
    pub rx_packets: Counter,
    pub tx_packets: Counter,
    pub rx_drops: Counter,
    pub tx_drops: Counter,
}

/// All counters at zero.
pub open spec fn no_traffic() -> NetworkCounters {
    let zero = Counter { value: 0 };
    NetworkCounters {
        rx_bytes: zero,
        tx_bytes: zero,
        rx_packets: zero,
        tx_packets: zero,
        rx_drops: zero,
        tx_drops: zero,
    }
}

impl Default for NetworkCounters {
    fn default() -> (r: Self)
        ensures
            r == no_traffic(),
    {
        NetworkCounters {
            rx_bytes: Counter { value: 0 },
            tx_bytes: Counter { value: 0 },
            rx_packets: Counter { value: 0 },
            tx_packets: Counter { value: 0 },
            rx_drops: Counter { value: 0 },
            tx_drops: Counter { value: 0 },
        }
    }
}

/// The counters as a sample taken at `now`.
pub open spec fn sample_of(c: NetworkCounters, now: Timestamp) -> NetworkUsage {
    NetworkUsage {
        sampled_at: now,
        rx_bytes: c.rx_bytes.value,
        tx_bytes: c.tx_bytes.value,
        rx_packets: c.rx_packets.value,
        tx_packets: c.tx_packets.value,
        rx_drops: c.rx_drops.value,
        tx_drops: c.tx_drops.value,
    }
}

impl NetworkCounters {
    /// The counters as a sample taken at `now`.
    pub fn snapshot(&self, now: Timestamp) -> (r: NetworkUsage)
        ensures
            r == sample_of(*self, now),
    {
        NetworkUsage {
            sampled_at: now,
            rx_bytes: self.rx_bytes.load(),
            tx_bytes: self.tx_bytes.load(),
            rx_packets: self.rx_packets.load(),
            tx_packets: self.tx_packets.load(),
            rx_drops: self.rx_drops.load(),
            tx_drops: self.tx_drops.load(),
        }
    }

    /// The counters after a packet of `bytes` bytes reached the guest.
    pub open spec fn received(self, bytes: u64) -> NetworkCounters {
        NetworkCounters {
            rx_packets: counted(self.rx_packets, 1),
            rx_bytes: counted(self.rx_bytes, bytes),
            ..self
        }
    }

    /// The counters after a packet for the guest was lost.
    pub open spec fn rx_dropped(self) -> NetworkCounters {
        NetworkCounters { rx_drops: counted(self.rx_drops, 1), ..self }
    }

    /// The counters after a packet of `bytes` bytes left the guest.
    pub open spec fn sent(self, bytes: u64) -> NetworkCounters {
        NetworkCounters {
            tx_packets: counted(self.tx_packets, 1),
            tx_bytes: counted(self.tx_bytes, bytes),
            ..self
        }
    }

    /// The counters after a packet of the guest was lost.
    pub open spec fn tx_dropped(self) -> NetworkCounters {
        NetworkCounters { tx_drops: counted(self.tx_drops, 1), ..self }
    }
}

/// What the pump from `vmnet` to the guest does next.
#[derive(Debug, Clone, Copy, PartialEq, Eq, Structural)]
pub enum RxStage {
    /// Look whether the proxy is being shut down.
    Check,
    /// Wait for packets or for the shutdown, and look again.
    Wait,
    /// Read a batch of packets.
    Drain,
    /// Look whether the proxy is being shut down before packet `next` of a
    /// batch of `count`.
    Next { next: usize, count: usize },
    /// Write packet `next` of a batch of `count`.
    Write { next: usize, count: usize },
    /// The pump has ended.
    Finished,
}

/// What came of it.
#[derive(Debug, Clone, Copy, PartialEq, Eq, Structural)]
pub enum RxEvent {
    /// Whether the proxy is being shut down.
    Shutdown(bool),
    /// How many packets were read.
    Read(usize),
    /// The read failed.
    ReadFailed,
    /// How many bytes were written.
    Written(u64),
    /// The write failed; `fatal` where the other end is gone or the proxy is
    /// being shut down.
    WriteFailed { fatal: bool },
}

/// The stage behind packet `next` of a batch.
pub open spec fn behind_packet(next: usize, count: usize) -> RxStage {
    if next + 1 < count {
        RxStage::Next { next: (next + 1) as usize, count }
    } else {
        RxStage::Drain
    }
}

/// What the pump does after an event, and the counters then. An event that
/// does not belong to the stage changes nothing.
pub open spec fn rx_step(stage: RxStage, c: NetworkCounters, event: RxEvent) -> (
    RxStage,
    NetworkCounters,
) {
    match (stage, event) {
        (RxStage::Check, RxEvent::Shutdown(down)) => if down {
            (RxStage::Finished, c)
        } else {
            (RxStage::Wait, c)
        },
        (RxStage::Wait, RxEvent::Shutdown(down)) => if down {
            (RxStage::Finished, c)
        } else {
            (RxStage::Drain, c)
        },
        (RxStage::Drain, RxEvent::ReadFailed) => (RxStage::Check, c.rx_dropped()),
        (RxStage::Drain, RxEvent::Read(n)) => if n == 0 {
            (RxStage::Check, c)
        } else if n <= READ_BATCH {
            (RxStage::Next { next: 0, count: n }, c)
        } else {
            (RxStage::Next { next: 0, count: READ_BATCH }, c)
        },
        (RxStage::Next { next, count }, RxEvent::Shutdown(down)) => if down {
            (RxStage::Finished, c)
        } else {
            (RxStage::Write { next, count }, c)
        },
        (RxStage::Write { next, count }, RxEvent::Written(bytes)) => (
            behind_packet(next, count),
            c.received(bytes),
        ),
        (RxStage::Write { next, count }, RxEvent::WriteFailed { fatal }) => if fatal {
            (RxStage::Finished, c)
        } else {
            (behind_packet(next, count), c.rx_dropped())
        },
        _ => (stage, c),
    }
}

fn after_packet(next: usize, count: usize) -> (r: RxStage)
    ensures
        r == behind_packet(next, count),
{
    if count > 0 && next < count - 1 {
        RxStage::Next { next: next + 1, count }
    } else {
        RxStage::Drain
    }
}

impl RxStage {
    /// Takes an event and counts the packet that it speaks of.
    pub fn advance(self, counters: &mut NetworkCounters, event: RxEvent) -> (r: RxStage)
        ensures
            (r, *final(counters)) == rx_step(self, *old(counters), event),
    {
        match (self, event) {
            (RxStage::Check, RxEvent::Shutdown(down)) => if down {
                RxStage::Finished
            } else {
                RxStage::Wait
            },
            (RxStage::Wait, RxEvent::Shutdown(down)) => if down {
                RxStage::Finished
            } else {
                RxStage::Drain
            },
            (RxStage::Drain, RxEvent::ReadFailed) => {
                counters.rx_drops.fetch_add(1);
                RxStage::Check
            },
            (RxStage::Drain, RxEvent::Read(n)) => if n == 0 {
                RxStage::Check
            } else if n <= READ_BATCH {
                RxStage::Next { next: 0, count: n }
            } else {
                RxStage::Next { next: 0, count: READ_BATCH }
            },
            (RxStage::Next { next, count }, RxEvent::Shutdown(down)) => if down {
                RxStage::Finished
            } else {
                RxStage::Write { next, count }
            },
            (RxStage::Write { next, count }, RxEvent::Written(bytes)) => {
                counters.rx_packets.fetch_add(1);
                counters.rx_bytes.fetch_add(bytes);
                after_packet(next, count)
            },
            (RxStage::Write { next, count }, RxEvent::WriteFailed { fatal }) => if fatal {
                RxStage::Finished
            } else {
                counters.rx_drops.fetch_add(1);
                after_packet(next, count)
            },
            _ => self,
        }
    }
}

/// The packets of the current batch that are not dealt with yet.
pub open spec fn pending(stage: RxStage) -> nat {
    match stage {
        RxStage::Next { next, count } | RxStage::Write { next, count } => if next < count {
            (count - next) as nat
        } else {
            0
        },
        _ => 0,
    }
}

/// Whether a stage can be reached: a packet of a batch lies within it.
pub open spec fn rx_reachable(stage: RxStage) -> bool {
    match stage {
        RxStage::Next { next, count } | RxStage::Write { next, count } => next < count
            <= READ_BATCH,
        _ => true,
    }
}

/// The packets that an event brings in: those of a successful read, and one
/// lost packet for a failed one.
pub open spec fn arrivals(stage: RxStage, event: RxEvent) -> nat {
    match (stage, event) {
        (RxStage::Drain, RxEvent::Read(n)) => n as nat,
        (RxStage::Drain, RxEvent::ReadFailed) => 1,
        _ => 0,
    }
}

/// The bytes that an event reports as written.
pub open spec fn written_bytes(stage: RxStage, event: RxEvent) -> nat {
    match (stage, event) {
        (RxStage::Write { .. }, RxEvent::Written(bytes)) => bytes as nat,
        _ => 0,
    }
}

/// The pump from `vmnet` to the guest and its counters after several events,
/// from its start on.
pub open spec fn rx_run(events: Seq<RxEvent>) -> (RxStage, NetworkCounters)
    decreases events.len(),
{
    if events.len() == 0 {
        (RxStage::Check, no_traffic())
    } else {
        let (stage, c) = rx_run(events.drop_last());
        rx_step(stage, c, events.last())
    }
}

/// The packets that several events brought in.
pub open spec fn rx_arrived(events: Seq<RxEvent>) -> nat
    decreases events.len(),
{
    if events.len() == 0 {
        0
    } else {
        rx_arrived(events.drop_last()) + arrivals(rx_run(events.drop_last()).0, events.last())
    }
}

/// The bytes that several events reported as written.
pub open spec fn rx_written(events: Seq<RxEvent>) -> nat
    decreases events.len(),
{
    if events.len() == 0 {
        0
    } else {
        rx_written(events.drop_last()) + written_bytes(rx_run(events.drop_last()).0, events.last())
    }
}

/// How an event changes the packets that are not dealt with yet.
proof fn lemma_rx_pending(stage: RxStage, c: NetworkCounters, event: RxEvent)
    requires
        rx_reachable(stage),
        event matches RxEvent::Read(n) ==> n <= READ_BATCH,
    ensures
        ({
            let next = rx_step(stage, c, event).0;
            &&& rx_reachable(next)
            &&& stage is Write ==> pending(stage) > 0
            &&& stage is Finished ==> next is Finished
            &&& !(next is Finished) ==> pending(next) == pending(stage) + (if stage is Drain
                && event is Read {
                event->Read_0 as int
            } else {
                0
            }) - (if stage is Write && (event is Written || event is WriteFailed) {
                1int
            } else {
                0
            })
        }),
{
}

/// Every packet that comes in is counted exactly once, as received or as
/// dropped, or is still pending; only what is pending when the pump ends is
/// lost without being counted. The bytes are those that were written, and the
/// counters of the other direction are not touched. This holds as long as no
/// counter is full.
#[verifier::spinoff_prover]
pub proof fn law_rx_packets_are_accounted_for(events: Seq<RxEvent>)
    requires
        forall|i: int|
            0 <= i < events.len() ==> ((#[trigger] events[i]) matches RxEvent::Read(n) ==> n
                <= READ_BATCH),
        rx_arrived(events) <= u64::MAX,
        rx_written(events) <= u64::MAX,
    ensures
        ({
            let (s, n) = rx_run(events);
            let counted = n.rx_packets.value + n.rx_drops.value;
            &&& rx_reachable(s)
            &&& s == RxStage::Finished ==> counted <= rx_arrived(events)
            &&& s != RxStage::Finished ==> counted + pending(s) == rx_arrived(events)
            &&& n.rx_bytes.value == rx_written(events)
            &&& n.tx_bytes.value == 0 && n.tx_packets.value == 0 && n.tx_drops.value == 0
        }),
    decreases events.len(),
{
    if events.len() > 0 {
        let before = events.drop_last();
        assert forall|i: int| 0 <= i < before.len() implies ((#[trigger] before[i]) matches
            RxEvent::Read(n) ==> n <= READ_BATCH) by {
            assert(before[i] == events[i]);
        }
        law_rx_packets_are_accounted_for(before);
        let (stage, c) = rx_run(before);
        let event = events.last();
        assert(event == events[events.len() - 1]);
        lemma_rx_pending(stage, c, event);
        law_rx_events_count(stage, c, event);
    }
}

/// A shutdown ends the pump wherever it looks for one, without a further
/// packet being written or counted.
pub proof fn law_rx_shutdown_ends_the_pump(stage: RxStage, c: NetworkCounters)
    requires
        stage is Check || stage is Wait || stage is Next,
    ensures
        rx_step(stage, c, RxEvent::Shutdown(true)) == (RxStage::Finished, c),
{
}

/// What the pump from the guest to `vmnet` does next.
#[derive(Debug, Clone, Copy, PartialEq, Eq, Structural)]
pub enum TxStage {
    /// Look whether the proxy is being shut down.
    Check,
    /// Read one packet.
    Read,
    /// Write the packet of `bytes` bytes.
    Write { bytes: u64 },
    /// The pump has ended.
    Finished,
}

/// What came of it.
#[derive(Debug, Clone, Copy, PartialEq, Eq, Structural)]
pub enum TxEvent {
    /// Whether the proxy is being shut down.
    Shutdown(bool),
    /// How many bytes were read; none where the socket was closed.
    Read(u64),
    /// The read failed; it is tried again where it was only interrupted.
    ReadFailed { interrupted: bool },
    /// How many packets were written.
    Written(usize),
    /// The write failed.
    WriteFailed,
}

/// What the pump does after an event, and the counters then. An event that
/// does not belong to the stage changes nothing.
pub open spec fn tx_step(stage: TxStage, c: NetworkCounters, event: TxEvent) -> (
    TxStage,
    NetworkCounters,
) {
    match (stage, event) {
        (TxStage::Check, TxEvent::Shutdown(down)) => if down {
            (TxStage::Finished, c)
        } else {
            (TxStage::Read, c)
        },
        (TxStage::Read, TxEvent::ReadFailed { interrupted }) => if interrupted {
            (TxStage::Check, c)
        } else {
            (TxStage::Finished, c)
        },
        (TxStage::Read, TxEvent::Read(bytes)) => if bytes == 0 {
            (TxStage::Finished, c)
        } else {
            (TxStage::Write { bytes }, c)
        },
        (TxStage::Write { bytes }, TxEvent::Written(n)) => if n == 1 {
            (TxStage::Check, c.sent(bytes))
        } else {
            (TxStage::Check, c.tx_dropped())
        },
        (TxStage::Write { .. }, TxEvent::WriteFailed) => (TxStage::Check, c.tx_dropped()),
        _ => (stage, c),
    }
}

impl TxStage {
    /// Takes an event and counts the packet that it speaks of.
    pub fn advance(self, counters: &mut NetworkCounters, event: TxEvent) -> (r: TxStage)
        ensures
            (r, *final(counters)) == tx_step(self, *old(counters), event),
    {
        match (self, event) {
            (TxStage::Check, TxEvent::Shutdown(down)) => if down {
                TxStage::Finished
            } else {
                TxStage::Read
            },
            (TxStage::Read, TxEvent::ReadFailed { interrupted }) => if interrupted {
                TxStage::Check
            } else {
                TxStage::Finished
            },
            (TxStage::Read, TxEvent::Read(bytes)) => if bytes == 0 {
                TxStage::Finished
            } else {
                TxStage::Write { bytes }
            },
            (TxStage::Write { bytes }, TxEvent::Written(n)) => {
                if n == 1 {
                    counters.tx_packets.fetch_add(1);
                    counters.tx_bytes.fetch_add(bytes);
                } else {
                    counters.tx_drops.fetch_add(1);
                }
                TxStage::Check
            },
            (TxStage::Write { bytes: _ }, TxEvent::WriteFailed) => {
                counters.tx_drops.fetch_add(1);
                TxStage::Check
            },
            _ => self,
        }
    }
}

/// The pump from the guest to `vmnet` and its counters after several events,
/// from its start on.
pub open spec fn tx_run(events: Seq<TxEvent>) -> (TxStage, NetworkCounters)
    decreases events.len(),
{
    if events.len() == 0 {
        (TxStage::Check, no_traffic())
    } else {
        let (stage, c) = tx_run(events.drop_last());
        tx_step(stage, c, events.last())
    }
}

/// The packets of the guest that several events brought in.
pub open spec fn tx_arrived(events: Seq<TxEvent>) -> nat
    decreases events.len(),
{
    if events.len() == 0 {
        0
    } else {
        tx_arrived(events.drop_last()) + match (tx_run(events.drop_last()).0, events.last()) {
            (TxStage::Read, TxEvent::Read(bytes)) => if bytes > 0 {
                1
            } else {
                0nat
            },
            _ => 0,
        }
    }
}

/// The bytes of the packets that went out.
pub open spec fn tx_written(events: Seq<TxEvent>) -> nat
    decreases events.len(),
{
    if events.len() == 0 {
        0
    } else {
        tx_written(events.drop_last()) + match (tx_run(events.drop_last()).0, events.last()) {
            (TxStage::Write { bytes }, TxEvent::Written(n)) => if n == 1 {
                bytes as nat
            } else {
                0
            },
            _ => 0,
        }
    }
}

/// Every packet that the guest sends is counted exactly once, with all its
/// bytes where it went out and as dropped where it did not, or is about to be
/// written. The counters of the other direction are not touched. This holds as
/// long as no counter is full.
#[verifier::spinoff_prover]
pub proof fn law_tx_packets_are_accounted_for(events: Seq<TxEvent>)
    requires
        tx_arrived(events) <= u64::MAX,
        tx_written(events) <= u64::MAX,
    ensures
        ({
            let (s, n) = tx_run(events);
            let pending: nat = if s is Write {
                1
            } else {
                0
            };
            &&& n.tx_packets.value + n.tx_drops.value + pending == tx_arrived(events)
            &&& n.tx_bytes.value == tx_written(events)
            &&& n.rx_bytes.value == 0 && n.rx_packets.value == 0 && n.rx_drops.value == 0
        }),
    decreases events.len(),
{
    if events.len() > 0 {
        law_tx_packets_are_accounted_for(events.drop_last());
        let (stage, c) = tx_run(events.drop_last());
        law_tx_events_count(stage, c, events.last());
    }
}

/// The size of the socket buffers: a whole batch of packets in either
/// direction, within limits.
pub open spec fn socket_buffer_of(max_packet: nat) -> nat {
    let packet = if max_packet < 2048 {
        2048
    } else {
        max_packet
    };
    let wanted = packet * 64;
    if wanted < 65_536 {
        65_536
    } else if wanted > 8_388_608 {
        8_388_608
    } else {
        wanted
    }
}

/// The size of the socket buffers for packets of up to `max_packet` bytes.
pub fn socket_buffer_size(max_packet: u32) -> (r: usize)
    ensures
        r == socket_buffer_of(max_packet as nat),
        65_536 <= r <= 8_388_608,
{
    let packet: u64 = if max_packet < 2048 {
        2048
    } else {
        max_packet as u64
    };
    let wanted: u64 = packet * 64;
    if wanted < 65_536 {
        65_536
    } else if wanted > 8_388_608 {
        8_388_608
    } else {
        wanted as usize
    }
}

/// A buffer size as the system takes it: at most the largest number of its
/// type.
pub open spec fn buffer_value(bytes: nat) -> int {
    if bytes > i32::MAX {
        i32::MAX as int
    } else {
        bytes as int
    }
}

/// Every size that a proxy chooses is handed to the system unchanged.
pub proof fn law_buffer_sizes_fit(max_packet: nat, bytes: nat)
    ensures
        buffer_value(socket_buffer_of(max_packet)) == socket_buffer_of(max_packet),
        bytes <= 2_147_483_647 ==> buffer_value(bytes) == bytes,
        bytes > 2_147_483_647 ==> buffer_value(bytes) == 2_147_483_647,
{
}

/// A buffer size as the system takes it.
pub fn sockbuf_value(bytes: usize) -> (r: i32)
    ensures
        r == buffer_value(bytes as nat),
{
    if bytes > i32::MAX as usize {
        i32::MAX
    } else {
        bytes as i32
    }
}

/// The error where no socket pair could be made.
pub fn socketpair_error(os_error: &str) -> (r: Error)
    ensures
        r@ == ErrorView::InvalidDevice(
            "socketpair(AF_UNIX, SOCK_DGRAM) failed: "@ + os_error@,
        ),
{
    Error::InvalidDevice(join2("socketpair(AF_UNIX, SOCK_DGRAM) failed: ", os_error))
}

/// One step of taking a proxy down.
#[derive(Debug, Clone, Copy, PartialEq, Eq, Structural)]
pub enum StopAction {
    /// Tell the pumps to end.
    RaiseShutdown,
    /// Wake the pump that waits for packets from `vmnet`.
    WakeReceiver,
    /// Unblock the pump that reads packets of the guest.
    UnblockSender,
    /// Wait until both pumps have ended.
    JoinPumps,
    /// Stop the interface, where nothing else uses it any more.
    StopInterface,
}

/// The steps of taking a proxy down, in order.
pub open spec fn stop_actions() -> Seq<StopAction> {
    seq![
        StopAction::RaiseShutdown,
        StopAction::WakeReceiver,
        StopAction::UnblockSender,
        StopAction::JoinPumps,
        StopAction::StopInterface,
    ]
}

/// The proxy of one network device.
#[derive(Debug)]
pub struct VmnetProxy {
    info: VmnetInterface,
    vz_fd: i32,
    stopped: bool,
}

/// A [`VmnetProxy`] without its private fields.
pub struct VmnetProxyView {
    pub info: VmnetInterface,
    pub vz_fd: i32,
    pub stopped: bool,
}

impl View for VmnetProxy {
    type V = VmnetProxyView;

    closed spec fn view(&self) -> VmnetProxyView {
        VmnetProxyView { info: self.info, vz_fd: self.vz_fd, stopped: self.stopped }
    }
}

/// What is known of an interface, for callers.
pub open spec fn interface_of(p: VmnetStartParams) -> VmnetInterface {
    VmnetInterface {
        mac: p.mac,
        mtu: p.mtu,
        max_packet_size: p.max_packet_size,
        dhcp_start: p.dhcp_start,
        dhcp_end: p.dhcp_end,
        subnet_mask: p.subnet_mask,
    }
}

impl VmnetProxy {
    /// The proxy for a running interface; `vz_fd` is the framework's end of
    /// the socket pair.
    pub fn new(params: &VmnetStartParams, vz_fd: i32) -> (r: Self)
        ensures
            r@ == (VmnetProxyView { info: interface_of(*params), vz_fd, stopped: false }),
    {
        VmnetProxy {
            info: VmnetInterface {
                mac: params.mac,
                mtu: params.mtu,
                max_packet_size: params.max_packet_size,
                dhcp_start: params.dhcp_start,
                dhcp_end: params.dhcp_end,
                subnet_mask: params.subnet_mask,
            },
            vz_fd,
            stopped: false,
        }
    }

    /// Hands out the framework's end of the socket pair. It is handed out
    /// once; after that the answer is `-1`.
    pub fn take_vz_fd(&mut self) -> (r: i32)
        ensures
            r == old(self)@.vz_fd,
            final(self)@ == (VmnetProxyView { vz_fd: -1i32, ..old(self)@ }),
    {
        let fd: i32 = self.vz_fd;
        self.vz_fd = -1;
        fd
    }

    /// What `vmnet` assigned to the interface.
    pub fn info(&self) -> (r: VmnetInterface)
        ensures
            r == self@.info,
    {
        self.info
    }

    /// The steps of taking the proxy down: all of them the first time, none
    /// after that.
    pub fn stop(&mut self) -> (r: Vec<StopAction>)
        ensures
            r@ == if old(self)@.stopped {
                Seq::empty()
            } else {
                stop_actions()
            },
            final(self)@ == (VmnetProxyView { stopped: true, ..old(self)@ }),
    {
        let mut r: Vec<StopAction> = Vec::new();
        if !self.stopped {
            self.stopped = true;
            r.push(StopAction::RaiseShutdown);
            r.push(StopAction::WakeReceiver);
            r.push(StopAction::UnblockSender);
            r.push(StopAction::JoinPumps);
            r.push(StopAction::StopInterface);
            assert(r@ =~= stop_actions());
        }
        r
    }
}

/// The pumps are told to end and are waited for before the interface is
/// stopped.
pub proof fn law_interface_outlives_the_pumps(i: int, j: int, k: int)
    requires
        0 <= i < stop_actions().len(),
        0 <= j < stop_actions().len(),
        0 <= k < stop_actions().len(),
        stop_actions()[i] == StopAction::RaiseShutdown,
        stop_actions()[j] == StopAction::JoinPumps,
        stop_actions()[k] == StopAction::StopInterface,
    ensures
        i < j < k,
{
}

/// What each event of the pump to the guest counts. A packet that was written
/// is one more packet received, with the bytes that were written; a packet
/// that was not written, or a read that failed, is one more drop; nothing else
/// is counted, and never for the other direction. This holds as long as no
/// counter is full.
pub proof fn law_rx_events_count(stage: RxStage, c: NetworkCounters, event: RxEvent)
    requires
        stage is Write && event is Written ==> c.rx_packets.value < u64::MAX,
        stage is Write && event is Written ==> c.rx_bytes.value + event->Written_0 <= u64::MAX,
        (stage is Write && event is WriteFailed) || (stage is Drain && event is ReadFailed)
            ==> c.rx_drops.value < u64::MAX,
    ensures
        ({
            let n = rx_step(stage, c, event).1;
            let written = stage is Write && event is Written;
            let lost = (stage is Write && event == RxEvent::WriteFailed { fatal: false }) || (
            stage is Drain && event is ReadFailed);
            &&& n.rx_packets.value == c.rx_packets.value + if written {
                1int
            } else {
                0
            }
            &&& n.rx_bytes.value == c.rx_bytes.value + if written {
                event->Written_0 as int
            } else {
                0
            }
            &&& n.rx_drops.value == c.rx_drops.value + if lost {
                1int
            } else {
                0
            }
            &&& n.tx_packets == c.tx_packets && n.tx_bytes == c.tx_bytes && n.tx_drops == c.tx_drops
        }),
{
}

/// A batch is written packet by packet, from its first to its last, each of
/// them once; then the next batch is read, until none is left.
pub proof fn law_rx_batches_in_order(
    c: NetworkCounters,
    n: usize,
    next: usize,
    count: usize,
    bytes: u64,
)
    requires
        next < count,
    ensures
        0 < n <= 64 ==> rx_step(RxStage::Drain, c, RxEvent::Read(n)).0 == (RxStage::Next {
            next: 0,
            count: n,
        }),
        n > 64 ==> rx_step(RxStage::Drain, c, RxEvent::Read(n)).0 == (RxStage::Next {
            next: 0,
            count: 64,
        }),
        rx_step(RxStage::Drain, c, RxEvent::Read(0)).0 == RxStage::Check,
        rx_step(RxStage::Drain, c, RxEvent::ReadFailed).0 == RxStage::Check,
        rx_step(RxStage::Check, c, RxEvent::Shutdown(false)).0 == RxStage::Wait,
        rx_step(RxStage::Wait, c, RxEvent::Shutdown(false)).0 == RxStage::Drain,
        rx_step(RxStage::Next { next, count }, c, RxEvent::Shutdown(false)).0 == (RxStage::Write {
            next,
            count,
        }),
        next + 1 < count ==> rx_step(
            RxStage::Write { next, count },
            c,
            RxEvent::Written(bytes),
        ).0 == (RxStage::Next { next: (next + 1) as usize, count }),
        next + 1 == count ==> rx_step(
            RxStage::Write { next, count },
            c,
            RxEvent::Written(bytes),
        ).0 == RxStage::Drain,
        rx_step(RxStage::Write { next, count }, c, RxEvent::WriteFailed { fatal: false }).0
            == rx_step(RxStage::Write { next, count }, c, RxEvent::Written(bytes)).0,
        rx_step(RxStage::Write { next, count }, c, RxEvent::WriteFailed { fatal: true }) == (
            RxStage::Finished,
            c,
        ),
{
}

/// What each event of the pump from the guest counts. A packet that went out
/// is one more packet sent, with all the bytes that were read of it; one that
/// did not is one more drop; nothing else is counted, and never for the other
/// direction. This holds as long as no counter is full.
pub proof fn law_tx_events_count(stage: TxStage, c: NetworkCounters, event: TxEvent)
    requires
        stage is Write && event is Written ==> c.tx_packets.value < u64::MAX,
        stage is Write && event == TxEvent::Written(1) ==> c.tx_bytes.value + stage->bytes
            <= u64::MAX,
        stage is Write && (event is Written || event is WriteFailed) ==> c.tx_drops.value
            < u64::MAX,
    ensures
        ({
            let n = tx_step(stage, c, event).1;
            let sent = stage is Write && event == TxEvent::Written(1);
            let lost = stage is Write && !sent && (event is Written || event is WriteFailed);
            &&& n.tx_packets.value == c.tx_packets.value + if sent {
                1int
            } else {
                0
            }
            &&& n.tx_bytes.value == c.tx_bytes.value + if sent {
                stage->bytes as int
            } else {
                0
            }
            &&& n.tx_drops.value == c.tx_drops.value + if lost {
                1int
            } else {
                0
            }
            &&& n.rx_packets == c.rx_packets && n.rx_bytes == c.rx_bytes && n.rx_drops == c.rx_drops
        }),
{
}

/// A packet of the guest is written with the length that was read. The pump
/// looks for a shutdown before each packet, tries again after an interruption,
/// and ends with the socket, with a failed read and with a shutdown.
pub proof fn law_tx_packets_in_order(c: NetworkCounters, bytes: u64, n: usize)
    ensures
        tx_step(TxStage::Check, c, TxEvent::Shutdown(true)) == (TxStage::Finished, c),
        tx_step(TxStage::Check, c, TxEvent::Shutdown(false)) == (TxStage::Read, c),
        bytes > 0 ==> tx_step(TxStage::Read, c, TxEvent::Read(bytes)).0 == (TxStage::Write {
            bytes,
        }),
        tx_step(TxStage::Read, c, TxEvent::Read(0)) == (TxStage::Finished, c),
        tx_step(TxStage::Read, c, TxEvent::ReadFailed { interrupted: true }) == (TxStage::Check, c),
        tx_step(TxStage::Read, c, TxEvent::ReadFailed { interrupted: false }) == (
            TxStage::Finished,
            c,
        ),
        tx_step(TxStage::Write { bytes }, c, TxEvent::Written(n)).0 == TxStage::Check,
        tx_step(TxStage::Write { bytes }, c, TxEvent::WriteFailed).0 == TxStage::Check,
{
}

/// A sample shows each counter under its own name.
pub proof fn law_samples_show_the_counters(c: NetworkCounters, now: Timestamp)
    ensures
        ({
            let u = sample_of(c, now);
            &&& u.sampled_at == now
            &&& u.rx_bytes == c.rx_bytes.value && u.tx_bytes == c.tx_bytes.value
            &&& u.rx_packets == c.rx_packets.value && u.tx_packets == c.tx_packets.value
            &&& u.rx_drops == c.rx_drops.value && u.tx_drops == c.tx_drops.value
        }),
        ({
            let u = sample_of(no_traffic(), now);
            &&& u.rx_bytes == 0 && u.tx_bytes == 0 && u.rx_packets == 0
            &&& u.tx_packets == 0 && u.rx_drops == 0 && u.tx_drops == 0
        }),
{
}

/// A counter grows by what is added, and starts over behind its largest value.
pub proof fn law_counters_grow(c: Counter, n: u64)
    ensures
        c.value + n <= u64::MAX ==> counted(c, n).value == c.value + n,
        c.value + n > u64::MAX ==> counted(c, n).value == c.value + n - u64::MAX - 1,
{
}

/// The socket buffers hold sixty-four packets of the largest size, where a
/// packet counts as at least 2048 bytes, and never more than 8 MiB.
pub proof fn law_socket_buffers_hold_a_batch(max_packet: nat)
    ensures
        max_packet <= 2048 ==> socket_buffer_of(max_packet) == 64 * 2048,
        2048 <= max_packet <= 131_072 ==> socket_buffer_of(max_packet) == 64 * max_packet,
        max_packet > 131_072 ==> socket_buffer_of(max_packet) == 8 * 1024 * 1024,
{
}

/// Callers are told of an interface what the framework reported of it.
pub proof fn law_interfaces_are_shown_as_reported(p: VmnetStartParams)
    ensures
        interface_of(p).mac == p.mac,
        interface_of(p).mtu == p.mtu,
        interface_of(p).max_packet_size == p.max_packet_size,
        interface_of(p).dhcp_start == p.dhcp_start,
        interface_of(p).dhcp_end == p.dhcp_end,
        interface_of(p).subnet_mask == p.subnet_mask,
{
}

/// Taking a proxy down does each step once: it raises the shutdown first, then
/// wakes both pumps, waits for them and stops the interface last.
pub proof fn law_every_step_of_taking_down()
    ensures
        stop_actions().no_duplicates(),
        forall|a: StopAction| #[trigger] stop_actions().contains(a),
        stop_actions().first() == StopAction::RaiseShutdown,
        stop_actions().last() == StopAction::StopInterface,
        stop_actions().index_of(StopAction::WakeReceiver) < stop_actions().index_of(
            StopAction::JoinPumps,
        ),
        stop_actions().index_of(StopAction::UnblockSender) < stop_actions().index_of(
            StopAction::JoinPumps,
        ),
{
    let s = stop_actions();
    assert forall|a: StopAction| #[trigger] s.contains(a) by {
        match a {
            StopAction::RaiseShutdown => assert(s[0] == a),
            StopAction::WakeReceiver => assert(s[1] == a),
            StopAction::UnblockSender => assert(s[2] == a),
            StopAction::JoinPumps => assert(s[3] == a),
            StopAction::StopInterface => assert(s[4] == a),
        }
    }
    assert(s.contains(StopAction::WakeReceiver) && s.contains(StopAction::UnblockSender)
        && s.contains(StopAction::JoinPumps));
}

} // verus!

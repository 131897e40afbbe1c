//! Byte and packet counters of `vmnet` network devices.
//!
//! Every packet of such a device crosses the packet proxy, which counts it.
//! Other attachments have no counters.
use vstd::prelude::*;

use super::metrics::{counter_growth, growth};
use crate::config::device::network::{Ipv4Addr, MacAddress};
use crate::number::{decimal, push_decimal};
use crate::rounding::{gib_text, law_whole_gib, push_gib};
use crate::time::{Duration, Timestamp};

verus! {

/// The counters of one device, at one moment.
#[derive(Debug, Clone, Copy, PartialEq, Eq, Structural)]
pub struct NetworkUsage {
    /// When this sample was taken.
    pub sampled_at: Timestamp,
    /// Cumulative bytes that the guest received.
    pub rx_bytes: u64,
    /// Cumulative bytes that the guest sent.
    pub tx_bytes: u64,
    /// Cumulative packets that the guest received.
    pub rx_packets: u64,
    /// Cumulative packets that the guest sent.
    pub tx_packets: u64,
    /// Cumulative packets lost on the way to the guest.
    pub rx_drops: u64,
    /// Cumulative packets lost on the way from the guest.
    pub tx_drops: u64,
}

/// The difference between two [`NetworkUsage`] samples.
#[derive(Debug, Clone, Copy, PartialEq, Eq, Structural)]
pub struct NetworkDelta {
    /// Wall-clock time between the two samples.
    pub interval: Duration,
    pub rx_bytes: u64,
    pub tx_bytes: u64,
    pub rx_packets: u64,
    pub tx_packets: u64,
    pub rx_drops: u64,
    pub tx_drops: u64,
}

/// What happened between two samples.
pub open spec fn network_delta(now: NetworkUsage, prev: NetworkUsage) -> NetworkDelta {
    NetworkDelta {
        interval: Duration {
            nanos: (now.sampled_at.total_nanos() - prev.sampled_at.total_nanos()) as u128,
        },
        rx_bytes: growth(now.rx_bytes, prev.rx_bytes),
        tx_bytes: growth(now.tx_bytes, prev.tx_bytes),
        rx_packets: growth(now.rx_packets, prev.rx_packets),
        tx_packets: growth(now.tx_packets, prev.tx_packets),
        rx_drops: growth(now.rx_drops, prev.rx_drops),
        tx_drops: growth(now.tx_drops, prev.tx_drops),
    }
}

/// What happened since an earlier sample; nothing is known where that sample
/// is the later one.
pub open spec fn network_delta_since(now: NetworkUsage, prev: NetworkUsage) -> Option<
    NetworkDelta,
> {
    if now.sampled_at.total_nanos() < prev.sampled_at.total_nanos() {
        None
    } else {
        Some(network_delta(now, prev))
    }
}

/// A byte count in the largest unit that it fills: GiB with one decimal
/// place, the smaller ones whole.
pub open spec fn bytes_text(bytes: u64) -> Seq<char> {
    if bytes >= 1_073_741_824 {
        gib_text(bytes as nat) + "GiB"@
    } else if bytes >= 1_048_576 {
        decimal((bytes / 1_048_576) as nat) + "MiB"@
    } else if bytes >= 1024 {
        decimal((bytes / 1024) as nat) + "KiB"@
    } else {
        decimal(bytes as nat) + "B"@
    }
}

/// A byte count in the largest unit that it fills.
pub fn fmt_bytes(bytes: u64) -> (r: String)
    ensures
        r@ == bytes_text(bytes),
{
    let mut r = String::new();
    if bytes >= 1_073_741_824 {
        push_gib(&mut r, bytes);
        r.append("GiB");
    } else if bytes >= 1_048_576 {
        push_decimal(&mut r, bytes / 1_048_576);
        r.append("MiB");
    } else if bytes >= 1024 {
        push_decimal(&mut r, bytes / 1024);
        r.append("KiB");
    } else {
        push_decimal(&mut r, bytes);
        r.append("B");
    }
    assert(r@ =~= bytes_text(bytes));
    r
}

/// Counters in one line, such as `rx=12MiB/458pkt tx=3MiB/127pkt`.
pub open spec fn traffic_text(
    rx_bytes: u64,
    rx_packets: u64,
    tx_bytes: u64,
    tx_packets: u64,
) -> Seq<char> {
    "rx="@ + bytes_text(rx_bytes) + "/"@ + decimal(rx_packets as nat) + "pkt tx="@ + bytes_text(
        tx_bytes,
    ) + "/"@ + decimal(tx_packets as nat) + "pkt"@
}

fn fmt_traffic(rx_bytes: u64, rx_packets: u64, tx_bytes: u64, tx_packets: u64) -> (r: String)
    ensures
        r@ == traffic_text(rx_bytes, rx_packets, tx_bytes, tx_packets),
{
    let mut r = "rx=".to_owned();
    r.append(fmt_bytes(rx_bytes).as_str());
    r.append("/");
    push_decimal(&mut r, rx_packets);
    r.append("pkt tx=");
    r.append(fmt_bytes(tx_bytes).as_str());
    r.append("/");
    push_decimal(&mut r, tx_packets);
    r.append("pkt");
    assert(r@ =~= traffic_text(rx_bytes, rx_packets, tx_bytes, tx_packets));
    r
}

impl NetworkUsage {
    /// What happened since an earlier sample.
    ///
    /// `None` where `prev` was taken after `self`. A counter that went back
    /// counts as unchanged.
    pub fn delta_since(&self, prev: &Self) -> (r: Option<NetworkDelta>)
        ensures
            r == network_delta_since(*self, *prev),
    {
        match self.sampled_at.duration_since(&prev.sampled_at) {
            Some(interval) => Some(
                NetworkDelta {
                    interval,
                    rx_bytes: counter_growth(self.rx_bytes, prev.rx_bytes),
                    tx_bytes: counter_growth(self.tx_bytes, prev.tx_bytes),
                    rx_packets: counter_growth(self.rx_packets, prev.rx_packets),
                    tx_packets: counter_growth(self.tx_packets, prev.tx_packets),
                    rx_drops: counter_growth(self.rx_drops, prev.rx_drops),
                    tx_drops: counter_growth(self.tx_drops, prev.tx_drops),
                },
            ),
            None => None,
        }
    }

    /// The sample in one line, such as `rx=12MiB/458pkt tx=3MiB/127pkt`.
    pub fn to_string(&self) -> (r: String)
        ensures
            r@ == traffic_text(self.rx_bytes, self.rx_packets, self.tx_bytes, self.tx_packets),
    {
        fmt_traffic(self.rx_bytes, self.rx_packets, self.tx_bytes, self.tx_packets)
    }
}

impl NetworkDelta {
    /// The difference in one line, such as `rx=12MiB/458pkt tx=3MiB/127pkt`.
    pub fn to_string(&self) -> (r: String)
        ensures
            r@ == traffic_text(self.rx_bytes, self.rx_packets, self.tx_bytes, self.tx_packets),
    {
        fmt_traffic(self.rx_bytes, self.rx_packets, self.tx_bytes, self.tx_packets)
    }
}

/// What `vmnet` assigned to a running interface.
#[derive(Debug, Clone, Copy)]
pub struct VmnetInterface {
    pub mac: MacAddress,
    pub mtu: u32,
    pub max_packet_size: u32,
    pub dhcp_start: Option<Ipv4Addr>,
    pub dhcp_end: Option<Ipv4Addr>,
    pub subnet_mask: Option<Ipv4Addr>,
}

/// A sample against itself shows an empty interval in which nothing happened.
pub proof fn law_network_delta_to_itself_is_zero(u: NetworkUsage)
    ensures
        network_delta_since(u, u) == Some(
            NetworkDelta {
                interval: Duration { nanos: 0 },
                rx_bytes: 0,
                tx_bytes: 0,
                rx_packets: 0,
                tx_packets: 0,
                rx_drops: 0,
                tx_drops: 0,
            },
        ),
{
}

/// Of two samples at different moments, exactly one has a delta since the
/// other.
pub proof fn law_only_the_later_network_sample_has_a_delta(a: NetworkUsage, b: NetworkUsage)
    requires
        a.sampled_at.total_nanos() != b.sampled_at.total_nanos(),
    ensures
        network_delta_since(a, b) is Some <==> network_delta_since(b, a) is None,
{
}

/// Whether no counter went back between two samples.
pub open spec fn network_counters_grew(prev: NetworkUsage, now: NetworkUsage) -> bool {
    &&& prev.rx_bytes <= now.rx_bytes
    &&& prev.tx_bytes <= now.tx_bytes
    &&& prev.rx_packets <= now.rx_packets
    &&& prev.tx_packets <= now.tx_packets
    &&& prev.rx_drops <= now.rx_drops
    &&& prev.tx_drops <= now.tx_drops
}

/// Where no counter went back, the deltas of two adjoining intervals add up
/// to the delta of the whole.
pub proof fn law_network_deltas_add_up(a: NetworkUsage, b: NetworkUsage, c: NetworkUsage)
    requires
        a.sampled_at.total_nanos() <= b.sampled_at.total_nanos() <= c.sampled_at.total_nanos(),
        network_counters_grew(a, b),
        network_counters_grew(b, c),
    ensures
        ({
            let ab = network_delta(b, a);
            let bc = network_delta(c, b);
            let ac = network_delta(c, a);
            &&& ab.interval.nanos + bc.interval.nanos == ac.interval.nanos
            &&& ab.rx_bytes + bc.rx_bytes == ac.rx_bytes
            &&& ab.tx_bytes + bc.tx_bytes == ac.tx_bytes
            &&& ab.rx_packets + bc.rx_packets == ac.rx_packets
            &&& ab.tx_packets + bc.tx_packets == ac.tx_packets
            &&& ab.rx_drops + bc.rx_drops == ac.rx_drops
            &&& ab.tx_drops + bc.tx_drops == ac.tx_drops
        }),
{
}

/// A delta is what happened: added to the earlier value of a counter, its
/// entry gives the later value of that same counter, for every counter on its
/// own; a counter that went back has not moved. The interval is the time
/// between the two samples.
pub proof fn law_network_delta_leads_to_the_later_sample(now: NetworkUsage, prev: NetworkUsage)
    ensures
        network_delta_since(now, prev) is Some <==> prev.sampled_at.secs * 1_000_000_000
            + prev.sampled_at.nanos <= now.sampled_at.secs * 1_000_000_000 + now.sampled_at.nanos,
        network_delta_since(now, prev) matches Some(d) ==> {
            &&& prev.sampled_at.secs * 1_000_000_000 + prev.sampled_at.nanos + d.interval.nanos
                == now.sampled_at.secs * 1_000_000_000 + now.sampled_at.nanos
            &&& prev.rx_bytes <= now.rx_bytes ==> prev.rx_bytes + d.rx_bytes == now.rx_bytes
            &&& prev.tx_bytes <= now.tx_bytes ==> prev.tx_bytes + d.tx_bytes == now.tx_bytes
            &&& prev.rx_packets <= now.rx_packets ==> prev.rx_packets + d.rx_packets
                == now.rx_packets
            &&& prev.tx_packets <= now.tx_packets ==> prev.tx_packets + d.tx_packets
                == now.tx_packets
            &&& prev.rx_drops <= now.rx_drops ==> prev.rx_drops + d.rx_drops == now.rx_drops
            &&& prev.tx_drops <= now.tx_drops ==> prev.tx_drops + d.tx_drops == now.tx_drops
            &&& prev.rx_bytes > now.rx_bytes ==> d.rx_bytes == 0
            &&& prev.tx_bytes > now.tx_bytes ==> d.tx_bytes == 0
            &&& prev.rx_packets > now.rx_packets ==> d.rx_packets == 0
            &&& prev.tx_packets > now.tx_packets ==> d.tx_packets == 0
            &&& prev.rx_drops > now.rx_drops ==> d.rx_drops == 0
            &&& prev.tx_drops > now.tx_drops ==> d.tx_drops == 0
        },
{
}

/// The units of a byte count: bytes below one KiB, whole KiB below one MiB,
/// whole MiB below one GiB. What does not fill a unit is cut off.
pub proof fn law_byte_counts_in_units(n: u64, rest: u64)
    requires
        1 <= n < 1024,
    ensures
        bytes_text(n) == decimal(n as nat) + "B"@,
        rest < 1024 ==> bytes_text((n * 1024 + rest) as u64) == decimal(n as nat) + "KiB"@,
        rest < 1_048_576 ==> bytes_text((n * 1_048_576 + rest) as u64) == decimal(n as nat)
            + "MiB"@,
{
}

/// A line names what came in before what went out, each with its bytes and its
/// packets.
pub proof fn law_traffic_line(rx_mib: u64, rx_packets: u64, tx_mib: u64, tx_packets: u64)
    requires
        1 <= rx_mib < 1024,
        1 <= tx_mib < 1024,
    ensures
        traffic_text(
            (rx_mib * 1_048_576) as u64,
            rx_packets,
            (tx_mib * 1_048_576) as u64,
            tx_packets,
        ) == "rx="@ + (decimal(rx_mib as nat) + "MiB"@) + "/"@ + decimal(rx_packets as nat)
            + "pkt tx="@ + (decimal(tx_mib as nat) + "MiB"@) + "/"@ + decimal(tx_packets as nat)
            + "pkt"@,
{
}

/// From one GiB on, a byte count has one decimal place.
pub proof fn law_byte_counts_in_gib(gib: u64)
    requires
        1 <= gib < 8_388_608,
    ensures
        bytes_text((gib * 1_073_741_824) as u64) == decimal(gib as nat) + seq!['.', '0'] + "GiB"@,
{
    law_whole_gib(gib as nat);
}

} // verus!

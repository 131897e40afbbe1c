//! Host-observed resource usage of a running virtual machine.
//!
//! The values come from the worker process that the framework runs for each
//! VM. They are what the host sees, not what the guest sees: CPU time is time
//! that the host spent, memory is the host's backing footprint, and disk I/O
//! is the sum over all disk images. Energy and performance counters are zero
//! on Intel Macs.
use vstd::prelude::*;

use crate::number::{decimal, push_decimal};
use crate::rounding::{law_whole_seconds, push_seconds, seconds_text};
use crate::time::{Duration, Timestamp};

verus! {

/// Resource usage of the worker process behind a VM, at one moment.
#[derive(Debug, Clone, Copy, PartialEq, Eq, Structural)]
pub struct ResourceUsage {
    /// When this sample was taken.
    pub sampled_at: Timestamp,
    /// Cumulative user-space CPU time, in nanoseconds.
    pub cpu_user_ns: u64,
    /// Cumulative kernel-space CPU time, in nanoseconds.
    pub cpu_system_ns: u64,
    /// Current resident-set size, in bytes.
    pub resident_bytes: u64,
    /// Current physical memory footprint, in bytes.
    pub phys_footprint_bytes: u64,
    /// Peak physical footprint over the life of the process, in bytes.
    pub peak_phys_footprint_bytes: u64,
    /// Current wired memory, in bytes.
    pub wired_bytes: u64,
    /// Cumulative bytes read from disk.
    pub disk_read_bytes: u64,
    /// Cumulative bytes written to disk.
    pub disk_write_bytes: u64,
    /// Cumulative page-ins.
    pub pageins: u64,
    /// Cumulative billed energy, in nanojoules.
    pub energy_nj: u64,
    /// Cumulative retired instructions.
    pub instructions: u64,
    /// Cumulative CPU cycles.
    pub cycles: u64,
}

/// The difference between two [`ResourceUsage`] samples.
///
/// Cumulative counters become totals for the interval; the memory values are
/// those of the later sample.
#[derive(Debug, Clone, Copy, PartialEq, Eq, Structural)]
pub struct ResourceDelta {
    /// Wall-clock time between the two samples.
    pub interval: Duration,
    pub cpu_user_ns: u64,
    pub cpu_system_ns: u64,
    pub disk_read_bytes: u64,
    pub disk_write_bytes: u64,
    pub pageins: u64,
    pub energy_nj: u64,
    pub instructions: u64,
    pub cycles: u64,
    /// The later sample's value.
    pub resident_bytes: u64,
    /// The later sample's value.
    pub phys_footprint_bytes: u64,
    /// The later sample's value.
    pub peak_phys_footprint_bytes: u64,
    /// The later sample's value.
    pub wired_bytes: u64,
}

/// How much a counter has grown; nothing where it went back.
pub open spec fn growth(now: u64, before: u64) -> u64 {
    if now >= before {
        (now - before) as u64
    } else {
        0
    }
}

/// What happened between two samples.
pub open spec fn resource_delta(now: ResourceUsage, prev: ResourceUsage) -> ResourceDelta {
    ResourceDelta {
        interval: Duration {
            nanos: (now.sampled_at.total_nanos() - prev.sampled_at.total_nanos()) as u128,
        },
        cpu_user_ns: growth(now.cpu_user_ns, prev.cpu_user_ns),
        cpu_system_ns: growth(now.cpu_system_ns, prev.cpu_system_ns),
        disk_read_bytes: growth(now.disk_read_bytes, prev.disk_read_bytes),
        disk_write_bytes: growth(now.disk_write_bytes, prev.disk_write_bytes),
        pageins: growth(now.pageins, prev.pageins),
        energy_nj: growth(now.energy_nj, prev.energy_nj),
        instructions: growth(now.instructions, prev.instructions),
        cycles: growth(now.cycles, prev.cycles),
        resident_bytes: now.resident_bytes,
        phys_footprint_bytes: now.phys_footprint_bytes,
        peak_phys_footprint_bytes: now.peak_phys_footprint_bytes,
        wired_bytes: now.wired_bytes,
    }
}

/// What happened since an earlier sample; nothing is known where that sample
/// is the later one.
pub open spec fn resource_delta_since(now: ResourceUsage, prev: ResourceUsage) -> Option<
    ResourceDelta,
> {
    if now.sampled_at.total_nanos() < prev.sampled_at.total_nanos() {
        None
    } else {
        Some(resource_delta(now, prev))
    }
}

/// How much a counter has grown; nothing where it went back.
pub fn counter_growth(now: u64, before: u64) -> (r: u64)
    ensures
        r == growth(now, before),
{
    if now >= before {
        now - before
    } else {
        0
    }
}

/// Bytes in whole MiB.
pub open spec fn mib_text(bytes: u64) -> Seq<char> {
    decimal((bytes / 1_048_576) as nat) + "MiB"@
}

/// Bytes in whole MiB.
pub fn fmt_mib(bytes: u64) -> (r: String)
    ensures
        r@ == mib_text(bytes),
{
    let mut r = String::new();
    push_decimal(&mut r, bytes / 1_048_576);
    r.append("MiB");
    assert(r@ =~= mib_text(bytes));
    r
}

/// A sample in one line, such as `cpu=1.23s mem=512MiB disk=r:12MiB/w:4MiB`.
pub open spec fn usage_text(u: ResourceUsage) -> Seq<char> {
    "cpu="@ + seconds_text((u.cpu_user_ns + u.cpu_system_ns) as nat) + "s mem="@ + mib_text(
        u.phys_footprint_bytes,
    ) + " disk=r:"@ + mib_text(u.disk_read_bytes) + "/w:"@ + mib_text(u.disk_write_bytes)
}

impl ResourceUsage {
    /// What happened since an earlier sample.
    ///
    /// `None` where `prev` was taken after `self`. A counter that went back
    /// counts as unchanged.
    pub fn delta_since(&self, prev: &Self) -> (r: Option<ResourceDelta>)
        ensures
            r == resource_delta_since(*self, *prev),
    {
        match self.sampled_at.duration_since(&prev.sampled_at) {
            Some(interval) => Some(
                ResourceDelta {
                    interval,
                    cpu_user_ns: counter_growth(self.cpu_user_ns, prev.cpu_user_ns),
                    cpu_system_ns: counter_growth(self.cpu_system_ns, prev.cpu_system_ns),
                    disk_read_bytes: counter_growth(self.disk_read_bytes, prev.disk_read_bytes),
                    disk_write_bytes: counter_growth(self.disk_write_bytes, prev.disk_write_bytes),
                    pageins: counter_growth(self.pageins, prev.pageins),
                    energy_nj: counter_growth(self.energy_nj, prev.energy_nj),
                    instructions: counter_growth(self.instructions, prev.instructions),
                    cycles: counter_growth(self.cycles, prev.cycles),
                    resident_bytes: self.resident_bytes,
                    phys_footprint_bytes: self.phys_footprint_bytes,
                    peak_phys_footprint_bytes: self.peak_phys_footprint_bytes,
                    wired_bytes: self.wired_bytes,
                },
            ),
            None => None,
        }
    }

    /// The sample in one line, such as
    /// `cpu=1.23s mem=512MiB disk=r:12MiB/w:4MiB`.
    pub fn to_string(&self) -> (r: String)
        requires
            self.cpu_user_ns + self.cpu_system_ns <= u64::MAX,
        ensures
            r@ == usage_text(*self),
    {
        let mut r = "cpu=".to_owned();
        push_seconds(&mut r, self.cpu_user_ns + self.cpu_system_ns);
        r.append("s mem=");
        r.append(fmt_mib(self.phys_footprint_bytes).as_str());
        r.append(" disk=r:");
        r.append(fmt_mib(self.disk_read_bytes).as_str());
        r.append("/w:");
        r.append(fmt_mib(self.disk_write_bytes).as_str());
        assert(r@ =~= usage_text(*self));
        r
    }
}

/// A sample against itself shows an empty interval in which nothing happened.
pub proof fn law_delta_to_itself_is_zero(u: ResourceUsage)
    ensures
        resource_delta_since(u, u) == Some(
            ResourceDelta {
                interval: Duration { nanos: 0 },
                cpu_user_ns: 0,
                cpu_system_ns: 0,
                disk_read_bytes: 0,
                disk_write_bytes: 0,
                pageins: 0,
                energy_nj: 0,
                instructions: 0,
                cycles: 0,
                resident_bytes: u.resident_bytes,
                phys_footprint_bytes: u.phys_footprint_bytes,
                peak_phys_footprint_bytes: u.peak_phys_footprint_bytes,
                wired_bytes: u.wired_bytes,
            },
        ),
{
}

/// Of two samples at different moments, exactly one has a delta since the
/// other.
pub proof fn law_only_the_later_sample_has_a_delta(a: ResourceUsage, b: ResourceUsage)
    requires
        a.sampled_at.total_nanos() != b.sampled_at.total_nanos(),
    ensures
        resource_delta_since(a, b) is Some <==> resource_delta_since(b, a) is None,
{
}

/// Whether no counter went back between two samples.
pub open spec fn counters_grew(prev: ResourceUsage, now: ResourceUsage) -> bool {
    &&& prev.cpu_user_ns <= now.cpu_user_ns
    &&& prev.cpu_system_ns <= now.cpu_system_ns
    &&& prev.disk_read_bytes <= now.disk_read_bytes
    &&& prev.disk_write_bytes <= now.disk_write_bytes
    &&& prev.pageins <= now.pageins
    &&& prev.energy_nj <= now.energy_nj
    &&& prev.instructions <= now.instructions
    &&& prev.cycles <= now.cycles
}

/// Where no counter went back, the deltas of two adjoining intervals add up
/// to the delta of the whole.
pub proof fn law_deltas_add_up(a: ResourceUsage, b: ResourceUsage, c: ResourceUsage)
    requires
        a.sampled_at.total_nanos() <= b.sampled_at.total_nanos() <= c.sampled_at.total_nanos(),
        counters_grew(a, b),
        counters_grew(b, c),
    ensures
        ({
            let ab = resource_delta(b, a);
            let bc = resource_delta(c, b);
            let ac = resource_delta(c, a);
            &&& ab.interval.nanos + bc.interval.nanos == ac.interval.nanos
            &&& ab.cpu_user_ns + bc.cpu_user_ns == ac.cpu_user_ns
            &&& ab.cpu_system_ns + bc.cpu_system_ns == ac.cpu_system_ns
            &&& ab.disk_read_bytes + bc.disk_read_bytes == ac.disk_read_bytes
            &&& ab.disk_write_bytes + bc.disk_write_bytes == ac.disk_write_bytes
            &&& ab.pageins + bc.pageins == ac.pageins
            &&& ab.energy_nj + bc.energy_nj == ac.energy_nj
            &&& ab.instructions + bc.instructions == ac.instructions
            &&& ab.cycles + bc.cycles == ac.cycles
        }),
{
}

/// A delta is what happened: added to the earlier value of a counter, its
/// entry gives the later value of that same counter, for every counter on its
/// own; a counter that went back has not moved. The memory values are those of
/// the later sample, and the interval is the time between the two.
pub proof fn law_delta_leads_to_the_later_sample(now: ResourceUsage, prev: ResourceUsage)
    ensures
        resource_delta_since(now, prev) is Some <==> prev.sampled_at.secs * 1_000_000_000
            + prev.sampled_at.nanos <= now.sampled_at.secs * 1_000_000_000 + now.sampled_at.nanos,
        resource_delta_since(now, prev) matches Some(d) ==> {
            &&& prev.sampled_at.secs * 1_000_000_000 + prev.sampled_at.nanos + d.interval.nanos
                == now.sampled_at.secs * 1_000_000_000 + now.sampled_at.nanos
            &&& prev.cpu_user_ns <= now.cpu_user_ns ==> prev.cpu_user_ns + d.cpu_user_ns
                == now.cpu_user_ns
            &&& prev.cpu_system_ns <= now.cpu_system_ns ==> prev.cpu_system_ns + d.cpu_system_ns
                == now.cpu_system_ns
            &&& prev.disk_read_bytes <= now.disk_read_bytes ==> prev.disk_read_bytes
                + d.disk_read_bytes == now.disk_read_bytes
            &&& prev.disk_write_bytes <= now.disk_write_bytes ==> prev.disk_write_bytes
                + d.disk_write_bytes == now.disk_write_bytes
            &&& prev.pageins <= now.pageins ==> prev.pageins + d.pageins == now.pageins
            &&& prev.energy_nj <= now.energy_nj ==> prev.energy_nj + d.energy_nj == now.energy_nj
            &&& prev.instructions <= now.instructions ==> prev.instructions + d.instructions
                == now.instructions
            &&& prev.cycles <= now.cycles ==> prev.cycles + d.cycles == now.cycles
            &&& prev.cpu_user_ns > now.cpu_user_ns ==> d.cpu_user_ns == 0
            &&& prev.cpu_system_ns > now.cpu_system_ns ==> d.cpu_system_ns == 0
            &&& prev.disk_read_bytes > now.disk_read_bytes ==> d.disk_read_bytes == 0
            &&& prev.disk_write_bytes > now.disk_write_bytes ==> d.disk_write_bytes == 0
            &&& prev.pageins > now.pageins ==> d.pageins == 0
            &&& prev.energy_nj > now.energy_nj ==> d.energy_nj == 0
            &&& prev.instructions > now.instructions ==> d.instructions == 0
            &&& prev.cycles > now.cycles ==> d.cycles == 0
            &&& d.resident_bytes == now.resident_bytes
            &&& d.phys_footprint_bytes == now.phys_footprint_bytes
            &&& d.peak_phys_footprint_bytes == now.peak_phys_footprint_bytes
            &&& d.wired_bytes == now.wired_bytes
        },
{
}

/// A sample in one line shows the CPU time of both kinds together in seconds,
/// the physical footprint, and what was read from and written to disk, each in
/// whole MiB with what does not fill one cut off.
pub proof fn law_usage_line(
    u: ResourceUsage,
    user: nat,
    system: nat,
    mem: nat,
    read: nat,
    written: nat,
)
    requires
        u.cpu_user_ns == user * 1_000_000_000,
        u.cpu_system_ns == system * 1_000_000_000,
        (user + system) * 1_000_000_000 < 9_007_199_254_740_992,
        mem * 1_048_576 <= u.phys_footprint_bytes < (mem + 1) * 1_048_576,
        read * 1_048_576 <= u.disk_read_bytes < (read + 1) * 1_048_576,
        written * 1_048_576 <= u.disk_write_bytes < (written + 1) * 1_048_576,
    ensures
        usage_text(u) == "cpu="@ + (decimal(user + system) + seq!['.', '0', '0']) + "s mem="@ + (
        decimal(mem) + "MiB"@) + " disk=r:"@ + (decimal(read) + "MiB"@) + "/w:"@ + (decimal(written)
            + "MiB"@),
{
    law_whole_seconds(user + system);
    assert(u.cpu_user_ns + u.cpu_system_ns == (user + system) * 1_000_000_000);
    assert(u.phys_footprint_bytes / 1_048_576 == mem);
    assert(u.disk_read_bytes / 1_048_576 == read);
    assert(u.disk_write_bytes / 1_048_576 == written);
}

} // verus!

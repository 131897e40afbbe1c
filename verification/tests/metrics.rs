use std::collections::HashSet;

use vfrust::sys::process_info::{
    is_vz_worker, pick_earliest_after, pick_own_worker, pid_buffer_len, pids_written, text_written,
    ProcessFacts,
};
use vfrust::time::{Duration, Timestamp};
use vfrust::vm::metrics::{fmt_mib, ResourceUsage};
use vfrust::vm::network_metrics::{fmt_bytes, NetworkUsage};

fn sample(t_offset_ms: u64, cpu_u: u64, cpu_s: u64, disk_w: u64) -> ResourceUsage {
    ResourceUsage {
        sampled_at: Timestamp::from_epoch_millis(t_offset_ms),
        cpu_user_ns: cpu_u,
        cpu_system_ns: cpu_s,
        resident_bytes: 100,
        phys_footprint_bytes: 200,
        peak_phys_footprint_bytes: 300,
        wired_bytes: 10,
        disk_read_bytes: 0,
        disk_write_bytes: disk_w,
        pageins: 0,
        energy_nj: 0,
        instructions: 0,
        cycles: 0,
    }
}

fn net_sample(t_offset_ms: u64, rx_b: u64, tx_b: u64, rx_p: u64, tx_p: u64) -> NetworkUsage {
    NetworkUsage {
        sampled_at: Timestamp::from_epoch_millis(t_offset_ms),
        rx_bytes: rx_b,
        tx_bytes: tx_b,
        rx_packets: rx_p,
        tx_packets: tx_p,
        rx_drops: 0,
        tx_drops: 0,
    }
}

#[test]
fn metrics_delta_since_returns_none_when_prev_is_later() {
    let earlier = sample(0, 0, 0, 0);
    let later = sample(1_000, 100, 50, 10);
    assert!(later.delta_since(&later).is_some());
    assert!(earlier.delta_since(&later).is_none());
}

#[test]
fn metrics_delta_since_subtracts_cumulative_counters() {
    let a = sample(0, 100, 50, 1_000);
    let b = sample(1_000, 400, 150, 5_000);
    let d = b.delta_since(&a).expect("delta");
    assert_eq!(d.interval, Duration::from_millis(1_000));
    assert_eq!(d.cpu_user_ns, 300);
    assert_eq!(d.cpu_system_ns, 100);
    assert_eq!(d.disk_write_bytes, 4_000);
}

#[test]
fn metrics_delta_since_saturates_on_decrease() {
    let a = sample(0, 500, 0, 0);
    let b = sample(1_000, 100, 0, 0);
    let d = b.delta_since(&a).expect("delta");
    assert_eq!(d.cpu_user_ns, 0);
}

#[test]
fn delta_since_carries_latter_snapshot_values() {
    let mut a = sample(0, 0, 0, 0);
    a.phys_footprint_bytes = 100;
    let mut b = sample(1_000, 0, 0, 0);
    b.phys_footprint_bytes = 500;
    let d = b.delta_since(&a).expect("delta");
    assert_eq!(d.phys_footprint_bytes, 500);
}

#[test]
fn display_format_matches_expected_shape() {
    let u = ResourceUsage {
        sampled_at: Timestamp::from_epoch_millis(0),
        cpu_user_ns: 1_000_000_000,
        cpu_system_ns: 230_000_000,
        resident_bytes: 0,
        phys_footprint_bytes: 512 * 1024 * 1024,
        peak_phys_footprint_bytes: 0,
        wired_bytes: 0,
        disk_read_bytes: 12 * 1024 * 1024,
        disk_write_bytes: 4 * 1024 * 1024,
        pageins: 0,
        energy_nj: 0,
        instructions: 0,
        cycles: 0,
    };
    assert_eq!(u.to_string(), "cpu=1.23s mem=512MiB disk=r:12MiB/w:4MiB");
}

#[test]
fn network_metrics_delta_since_returns_none_when_prev_is_later() {
    let earlier = net_sample(0, 0, 0, 0, 0);
    let later = net_sample(1_000, 10, 10, 1, 1);
    assert!(later.delta_since(&later).is_some());
    assert!(earlier.delta_since(&later).is_none());
}

#[test]
fn network_metrics_delta_since_subtracts_cumulative_counters() {
    let a = net_sample(0, 100, 50, 10, 5);
    let b = net_sample(1_000, 400, 150, 40, 15);
    let d = b.delta_since(&a).expect("delta");
    assert_eq!(d.interval, Duration::from_millis(1_000));
    assert_eq!(d.rx_bytes, 300);
    assert_eq!(d.tx_bytes, 100);
    assert_eq!(d.rx_packets, 30);
    assert_eq!(d.tx_packets, 10);
}

#[test]
fn network_metrics_delta_since_saturates_on_decrease() {
    let a = net_sample(0, 500, 500, 5, 5);
    let b = net_sample(1_000, 100, 100, 1, 1);
    let d = b.delta_since(&a).expect("delta");
    assert_eq!(d.rx_bytes, 0);
    assert_eq!(d.tx_bytes, 0);
    assert_eq!(d.rx_packets, 0);
}

#[test]
fn display_format_uses_human_sizes() {
    let u = NetworkUsage {
        sampled_at: Timestamp::from_epoch_millis(0),
        rx_bytes: 12 * 1024 * 1024,
        tx_bytes: 3 * 1024 * 1024,
        rx_packets: 458,
        tx_packets: 127,
        rx_drops: 0,
        tx_drops: 0,
    };
    assert_eq!(u.to_string(), "rx=12MiB/458pkt tx=3MiB/127pkt");
}

#[test]
fn display_format_scales_down_to_bytes() {
    let u = NetworkUsage {
        sampled_at: Timestamp::from_epoch_millis(0),
        rx_bytes: 512,
        tx_bytes: 0,
        rx_packets: 1,
        tx_packets: 0,
        rx_drops: 0,
        tx_drops: 0,
    };
    assert_eq!(u.to_string(), "rx=512B/1pkt tx=0B/0pkt");
}

#[test]
fn network_deltas_are_shown_like_samples() {
    let a = net_sample(0, 0, 0, 0, 0);
    let b = net_sample(1, 5 * 1024, 3 << 30, 7, 9);
    assert_eq!(b.delta_since(&a).unwrap().to_string(), "rx=5KiB/7pkt tx=3.0GiB/9pkt");
}

#[test]
fn deltas_of_adjoining_intervals_add_up() {
    let (a, b, c) = (sample(0, 1, 2, 3), sample(10, 5, 7, 11), sample(35, 6, 20, 12));
    let (ab, bc, ac) = (
        b.delta_since(&a).unwrap(),
        c.delta_since(&b).unwrap(),
        c.delta_since(&a).unwrap(),
    );
    assert_eq!(ab.interval.nanos + bc.interval.nanos, ac.interval.nanos);
    assert_eq!(ab.cpu_user_ns + bc.cpu_user_ns, ac.cpu_user_ns);
    assert_eq!(ab.disk_write_bytes + bc.disk_write_bytes, ac.disk_write_bytes);
}

#[test]
fn samples_before_the_epoch_are_ordered_too() {
    let early = Timestamp { secs: -2, nanos: 500_000_000 };
    let late = Timestamp { secs: 1, nanos: 0 };
    assert_eq!(late.duration_since(&early), Some(Duration::from_millis(2_500)));
    assert_eq!(early.duration_since(&late), None);
}

#[test]
fn seconds_are_rounded_like_doubles() {
    let mut values: Vec<u64> = vec![
        0, 1, 4_999_999, 5_000_000, 5_000_001, 15_000_000, 25_000_000, 35_000_000, 45_000_000,
        125_000_000, 375_000_000, 625_000_000, 875_000_000, 994_999_999, 995_000_000, 999_999_999,
        1_005_000_000, 2_675_000_000, u64::MAX, u64::MAX - 1, 1 << 53, (1 << 53) + 1,
        (1 << 54) + 2, 9_007_199_254_740_993, 18_014_398_509_481_985,
    ];
    let mut x: u64 = 88172645463325252;
    for i in 0..20_000u64 {
        x ^= x << 13;
        x ^= x >> 7;
        x ^= x << 17;
        values.push(x >> (i % 60));
        values.push((x >> (i % 50)) / 5_000_000 * 5_000_000);
    }
    for ns in values {
        let mut u = sample(0, ns, 0, 0);
        u.phys_footprint_bytes = 0;
        let expected = format!("cpu={:.2}s mem=0MiB disk=r:0MiB/w:0MiB", ns as f64 / 1e9);
        assert_eq!(u.to_string(), expected, "{ns}");
    }
}

#[test]
fn gib_are_rounded_like_doubles() {
    let gib: u64 = 1 << 30;
    let mut values: Vec<u64> = vec![
        gib, gib + gib / 20, gib + gib / 4, gib + 3 * gib / 4, 2 * gib - 1, u64::MAX, 1 << 60,
    ];
    let mut x: u64 = 88172645463325252;
    for i in 0..20_000u64 {
        x ^= x << 13;
        x ^= x >> 7;
        x ^= x << 17;
        values.push((x >> (i % 33)) | gib);
        values.push(((x >> (i % 33)) | gib) / (1 << 26) * (1 << 26));
    }
    for bytes in values {
        if bytes >= gib {
            assert_eq!(fmt_bytes(bytes), format!("{:.1}GiB", bytes as f64 / gib as f64), "{bytes}");
        }
    }
}

#[test]
fn byte_units_change_at_their_limits() {
    assert_eq!(fmt_bytes(1023), "1023B");
    assert_eq!(fmt_bytes(1024), "1KiB");
    assert_eq!(fmt_bytes((1 << 20) - 1), "1023KiB");
    assert_eq!(fmt_bytes(1 << 20), "1MiB");
    assert_eq!(fmt_bytes((1 << 30) - 1), "1023MiB");
    assert_eq!(fmt_bytes(1 << 30), "1.0GiB");
    assert_eq!(fmt_mib((1 << 20) - 1), "0MiB");
    assert_eq!(fmt_mib(7 << 20), "7MiB");
}

#[test]
fn pick_earliest_after_returns_none_when_all_predate_submit() {
    let candidates = vec![(10, 1_000), (20, 2_000)];
    assert_eq!(pick_earliest_after(5_000, &candidates, &HashSet::new()), None);
}

#[test]
fn pick_earliest_after_returns_none_for_empty_candidates() {
    assert_eq!(pick_earliest_after(0, &vec![], &HashSet::new()), None);
}

#[test]
fn pick_earliest_after_picks_sole_candidate_newer_than_submit() {
    let candidates = vec![(42, 9_000)];
    assert_eq!(
        pick_earliest_after(1_000, &candidates, &HashSet::new()),
        Some((42, 9_000))
    );
}

#[test]
fn pick_earliest_after_prefers_smallest_start_time_after_submit() {
    let candidates = vec![(10, 2_000), (20, 5_000), (30, 3_000)];
    assert_eq!(
        pick_earliest_after(1_000, &candidates, &HashSet::new()),
        Some((10, 2_000))
    );
}

#[test]
fn pick_earliest_after_skips_already_claimed_pids() {
    let candidates = vec![(10, 2_000), (20, 3_000), (30, 5_000)];
    let claimed: HashSet<i32> = [10].into_iter().collect();
    assert_eq!(
        pick_earliest_after(1_000, &candidates, &claimed),
        Some((20, 3_000))
    );
}

#[test]
fn pick_earliest_after_filters_out_pids_at_or_before_submit() {
    let candidates = vec![(10, 5_000), (20, 5_001)];
    assert_eq!(
        pick_earliest_after(5_000, &candidates, &HashSet::new()),
        Some((20, 5_001))
    );
}

#[test]
fn pick_earliest_after_takes_the_first_of_equals() {
    let candidates = vec![(30, 9_000), (10, 7_000), (20, 7_000)];
    assert_eq!(
        pick_earliest_after(0, &candidates, &HashSet::new()),
        Some((10, 7_000))
    );
}

fn process(pid: i32, name: &str, path: Option<&str>, start: Option<u64>) -> ProcessFacts {
    ProcessFacts {
        pid,
        name: Some(name.to_string()),
        path: path.map(|p| p.to_string()),
        start_abstime: start,
    }
}

#[test]
fn own_worker_is_picked_among_all_processes() {
    let processes = vec![
        process(1, "launchd", Some("/sbin/launchd"), Some(500)),
        process(2, "com.apple.Virtua", None, Some(150)),
        process(3, "com.apple.Virtual", None, None),
        process(4, "com.apple.Virtualization.VirtualMachine", None, Some(300)),
        process(5, "odd", Some("/x/com.apple.Virtualization.VirtualMachine/."), Some(200)),
    ];
    assert_eq!(pick_own_worker(100, &processes, &HashSet::new()), Some((5, 200)));
    let claimed: HashSet<i32> = [5].into_iter().collect();
    assert_eq!(pick_own_worker(100, &processes, &claimed), Some((4, 300)));
    assert_eq!(pick_own_worker(300, &processes, &HashSet::new()), None);
}

#[test]
fn workers_are_known_by_name_or_path() {
    let some = |s: &str| Some(s.to_string());
    assert!(is_vz_worker(&some("com.apple.Virtualiz"), &None));
    assert!(!is_vz_worker(&some("com.apple.Virt"), &None));
    assert!(is_vz_worker(&None, &some("/S/com.apple.Virtualization.VirtualMachine")));
    assert!(!is_vz_worker(&None, &some("/S/com.apple.Virtualization.VirtualMachine/..")));
    assert!(!is_vz_worker(&None, &some("/S/xcom.apple.Virtualization.VirtualMachine")));
    assert!(!is_vz_worker(&None, &None));
}

#[test]
fn process_table_buffer() {
    assert_eq!(pid_buffer_len(0), None);
    assert_eq!(pid_buffer_len(-1), None);
    assert_eq!(pid_buffer_len(400), Some(164));
    assert_eq!(pids_written(&vec![5, 0, -1, 7, 9], 16), vec![5, 7]);
    assert_eq!(pids_written(&vec![5, 7], 4000), vec![5, 7]);
    assert_eq!(pids_written(&vec![5, 7], 0), Vec::<i32>::new());
    assert_eq!(pids_written(&vec![5, 7], 7), vec![5]);
}

#[test]
fn kernel_texts_are_cut_and_checked() {
    let buf = b"abc\xc3\xa9\xff\0\0".to_vec();
    assert_eq!(text_written(&buf, 3), Some("abc".to_string()));
    assert_eq!(text_written(&buf, 5), Some("abc\u{e9}".to_string()));
    assert_eq!(text_written(&buf, 4), None);
    assert_eq!(text_written(&buf, 6), None);
    assert_eq!(text_written(&buf, 0), None);
    assert_eq!(text_written(&buf, -1), None);
    assert_eq!(text_written(&b"xy".to_vec(), 99), Some("xy".to_string()));
}

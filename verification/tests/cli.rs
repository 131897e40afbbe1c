use vfrust::cli::args::{add_gui_devices, add_timesync_device, attach_cloud_init, Cli};
use vfrust::cli::cloudinit::{
    cloud_init_paths, generate_cloud_init_iso, join_path, IsoBuild, IsoReply, IsoStage,
};
use vfrust::cli::run::{
    bind_error, chrono_like_timestamp, collect_vsock_proxies, metrics_line, pid_file_content,
    pid_file_error, ConnectProxyStage, SessionStage, ShutdownStage,
};
use vfrust::cli::timesync::{
    power_action, set_time_command, to_agent_time, PowerAction, SyncEvent, SyncStage, WatchStage,
};
use vfrust::config::bootloader::Bootloader;
use vfrust::config::device::input::VirtioInput;
use vfrust::config::device::vsock::VirtioVsock;
use vfrust::config::device::Device;
use vfrust::relay::{Direction, Relay, RelayStage, Transfer};
use vfrust::time::Timestamp;
use vfrust::vm::metrics::ResourceUsage;

/// Runs a build in which the files at `present` exist and every other step
/// succeeds.
fn build(paths: &[&str], present: &[&str]) -> Result<String, String> {
    let paths: Vec<String> = paths.iter().map(|p| p.to_string()).collect();
    let mut b = generate_cloud_init_iso(paths, "/tmp", 42);
    loop {
        let reply = match b.stage() {
            IsoStage::Exists { index } => {
                if present.contains(&b.path(index)) {
                    IsoReply::Yes
                } else {
                    IsoReply::No(String::new())
                }
            }
            IsoStage::TempDirExists => IsoReply::No(String::new()),
            IsoStage::Finished => return Ok(b.iso_path().to_string()),
            IsoStage::Failed => return Err(b.failure().unwrap().to_string()),
            _ => IsoReply::Yes,
        };
        b.advance(reply);
    }
}

#[test]
fn test_empty_paths_rejected() {
    let result = build(&[], &[]);
    assert!(result.is_err());
    assert!(result.unwrap_err().contains("at least one file path"));
}

#[test]
fn test_unknown_basename_rejected() {
    let path = "/tmp/vfrust-ci-test-unknown/random-file";
    let result = build(&[path], &[path]);
    assert!(result.is_err());
    assert!(result.unwrap_err().contains("unexpected cloud-init file"));
}

#[test]
fn test_missing_file_rejected() {
    let result = build(&["/nonexistent/path/user-data"], &[]);
    assert!(result.is_err());
    assert!(result.unwrap_err().contains("does not exist"));
}

#[test]
fn test_no_userdata_or_metadata_rejected() {
    let path = "/tmp/vfrust-ci-test-nodata/network-config";
    let result = build(&[path], &[path]);
    assert!(result.is_err());
    assert!(result
        .unwrap_err()
        .contains("at least one of 'meta-data' or 'user-data'"));
}

#[test]
fn test_generate_iso_with_userdata() {
    let (md, ud) = ("/tmp/vfrust-ci-test-gen/meta-data", "/tmp/vfrust-ci-test-gen/user-data");
    let result = build(&[md, ud], &[md, ud]);
    assert_eq!(result, Ok("/tmp/vfrust-cloud-init-42.iso".to_string()));
}

fn start(paths: &[&str]) -> IsoBuild {
    generate_cloud_init_iso(paths.iter().map(|p| p.to_string()).collect(), "/t/", 7)
}

#[test]
fn images_get_an_empty_file_for_a_missing_one() {
    let mut b = start(&["a/user-data"]);
    let expected = [
        IsoStage::Exists { index: 0 },
        IsoStage::TempDirExists,
        IsoStage::RemoveTempDir,
        IsoStage::CreateTempDir,
        IsoStage::Copy { index: 0 },
        IsoStage::WriteMetaData,
        IsoStage::MakeImage,
        IsoStage::CleanUp,
    ];
    for stage in expected {
        assert_eq!(b.stage(), stage);
        b.advance(IsoReply::Yes);
    }
    assert_eq!(b.stage(), IsoStage::Finished);
    assert_eq!(b.temp_dir(), "/t/vfrust-cidata-7");
    assert_eq!(b.destination(0), "/t/vfrust-cidata-7/user-data");
    assert_eq!(
        b.image_arguments(),
        vec![
            "makehybrid",
            "-iso",
            "-joliet",
            "-default-volume-name",
            "cidata",
            "-o",
            "/t/vfrust-cloud-init-7.iso",
            "/t/vfrust-cidata-7",
        ]
    );
    let mut b = start(&["meta-data", "x/network-config"]);
    for _ in 0..7 {
        b.advance(IsoReply::Yes);
    }
    assert_eq!(b.stage(), IsoStage::WriteUserData);
}

#[test]
fn the_last_file_of_a_name_is_copied_last() {
    let mut b = start(&["a/user-data", "meta-data", "b/user-data"]);
    let mut image: Vec<(String, String)> = Vec::new();
    while b.stage() != IsoStage::MakeImage {
        if let IsoStage::Copy { index } = b.stage() {
            let to = b.destination(index);
            image.retain(|(name, _)| *name != to);
            image.push((to, b.path(index).to_string()));
        }
        b.advance(IsoReply::Yes);
    }
    assert_eq!(
        image,
        vec![
            ("/t/vfrust-cidata-7/meta-data".to_string(), "meta-data".to_string()),
            ("/t/vfrust-cidata-7/user-data".to_string(), "b/user-data".to_string()),
        ]
    );
}

fn failure(paths: &[&str], good: usize, last: IsoReply) -> String {
    let mut b = start(paths);
    for _ in 0..good {
        b.advance(IsoReply::Yes);
    }
    b.advance(last);
    if b.stage() == IsoStage::CleanUp {
        b.advance(IsoReply::No("ignored".to_string()));
    }
    assert_eq!(b.stage(), IsoStage::Failed);
    b.failure().unwrap().to_string()
}

#[test]
fn image_failures() {
    let no = || IsoReply::No("why".to_string());
    let ud = &["a/user-data"][..];
    assert_eq!(failure(ud, 0, no()), "cloud-init file does not exist: a/user-data");
    assert_eq!(failure(ud, 2, no()), "failed to clean up temp dir: why");
    assert_eq!(failure(ud, 3, no()), "failed to create temp dir: why");
    assert_eq!(
        failure(ud, 4, no()),
        "failed to copy a/user-data to /t/vfrust-cidata-7/user-data: why"
    );
    assert_eq!(failure(ud, 5, no()), "failed to create empty meta-data: why");
    assert_eq!(failure(&["meta-data"], 5, no()), "failed to create empty user-data: why");
    assert_eq!(failure(ud, 6, no()), "hdiutil failed: why");
    assert_eq!(
        failure(ud, 6, IsoReply::NotRun("gone".to_string())),
        "failed to run hdiutil: gone"
    );
    assert_eq!(start(&["a/.."]).failure(), Some("invalid file path: a/.."));
    assert_eq!(
        start(&["a/b"]).failure(),
        Some("unexpected cloud-init file 'b'; expected one of: meta-data, user-data, network-config")
    );
}

#[test]
fn cloud_init_files_have_commas_between_them() {
    assert_eq!(cloud_init_paths("a,b,,c"), vec!["a", "b", "", "c"]);
    assert_eq!(cloud_init_paths(""), vec![""]);
    assert_eq!(join_path("/a", "b"), "/a/b");
    assert_eq!(join_path("/a/", "b"), "/a/b");
    assert_eq!(join_path("", "b"), "b");
}

fn cli() -> Cli {
    Cli {
        cpus: 1,
        memory: 512,
        bootloader: None,
        kernel: None,
        initrd: None,
        kernel_cmdline: None,
        device: vec![],
        log_level: "info".to_string(),
        gui: false,
        pidfile: None,
        cloud_init: None,
        ignition: None,
        timesync: None,
        metrics_interval: None,
        nested: false,
    }
}

#[test]
fn kernel_options_come_before_a_specification() {
    let mut c = cli();
    assert_eq!(
        c.select_bootloader().unwrap_err(),
        "error: either --bootloader or --kernel must be specified"
    );
    c.bootloader = Some("efi".to_string());
    assert_eq!(
        c.select_bootloader().unwrap_err(),
        "error parsing bootloader: efi bootloader requires 'variable-store' option"
    );
    c.bootloader = Some("efi,variable-store=/s".to_string());
    assert!(matches!(c.select_bootloader(), Ok(Bootloader::Efi(_))));
    c.kernel = Some("/k".to_string());
    c.initrd = Some("/i".to_string());
    match c.select_bootloader().unwrap() {
        Bootloader::Linux(l) => {
            assert_eq!(l.kernel_path, "/k");
            assert_eq!(l.initrd_path, Some("/i".to_string()));
            assert_eq!(l.command_line, "");
        }
        _ => panic!("expected Linux bootloader"),
    }
}

#[test]
fn devices_are_selected() {
    let mut c = cli();
    c.device = vec!["virtio-rng".to_string(), "virtio-input".to_string()];
    assert_eq!(c.select_devices().unwrap().len(), 2);
    c.gui = true;
    c.timesync = Some(99);
    let devices = c.select_devices().unwrap();
    assert_eq!(devices.len(), 5);
    assert!(matches!(devices[0], Device::VirtioRng));
    assert!(matches!(devices[2], Device::VirtioGpu(g) if g.width == 800));
    assert!(matches!(devices[3], Device::VirtioInput(VirtioInput::Pointing)));
    assert!(matches!(&devices[4], Device::VirtioVsock(v) if v.port == 0 && !v.listen));
    c.device = vec!["virtio-rng".to_string(), "nvme".to_string(), "floppy".to_string()];
    assert_eq!(
        c.select_devices().unwrap_err(),
        "error parsing device: nvme requires 'path' option"
    );
}

#[test]
fn gui_and_timesync_devices_are_added_once() {
    let mut devices = vec![];
    add_gui_devices(&mut devices);
    assert_eq!(devices.len(), 3);
    add_gui_devices(&mut devices);
    assert_eq!(devices.len(), 3);
    add_timesync_device(&mut devices);
    add_timesync_device(&mut devices);
    assert_eq!(devices.len(), 4);
    attach_cloud_init(&mut devices, "/iso".to_string());
    assert!(matches!(&devices[4], Device::UsbMassStorage(u) if u.path == "/iso" && u.read_only));
}

#[test]
fn configuration_is_built_from_the_options() {
    let mut c = cli();
    c.kernel = Some("/k".to_string());
    c.nested = true;
    c.cpus = 3;
    let config =
        c.build_config(c.select_bootloader().unwrap(), vec![Device::VirtioRng]).unwrap();
    assert_eq!((config.cpus(), config.memory_mib(), config.nested()), (3, 512, true));
    assert_eq!(config.devices().len(), 1);
    c.memory = 64;
    assert_eq!(
        c.build_config(c.select_bootloader().unwrap(), vec![]).unwrap_err(),
        "error building VM config: invalid VM configuration: memory must be at least 128 MiB"
    );
}

#[test]
fn metrics_interval_is_at_least_a_second() {
    let mut c = cli();
    assert_eq!(c.metrics_seconds(), None);
    c.metrics_interval = Some(0);
    assert_eq!(c.metrics_seconds(), Some(1));
    c.metrics_interval = Some(30);
    assert_eq!(c.metrics_seconds(), Some(30));
}

#[test]
fn time_of_day_comes_round() {
    assert_eq!(chrono_like_timestamp(0), "00:00:00");
    assert_eq!(chrono_like_timestamp(86_399), "23:59:59");
    assert_eq!(chrono_like_timestamp(86_400 + 3_661), "01:01:01");
    assert_eq!(chrono_like_timestamp(1_700_000_000), "22:13:20");
}

#[test]
fn reports_are_one_line() {
    let u = ResourceUsage {
        sampled_at: Timestamp::from_epoch_millis(0),
        cpu_user_ns: 1_500_000_000,
        cpu_system_ns: 0,
        resident_bytes: 0,
        phys_footprint_bytes: 1 << 20,
        peak_phys_footprint_bytes: 0,
        wired_bytes: 0,
        disk_read_bytes: 0,
        disk_write_bytes: 0,
        pageins: 0,
        energy_nj: 0,
        instructions: 0,
        cycles: 0,
    };
    assert_eq!(
        metrics_line(61, Some(12), &u),
        "[00:01:01] pid=12 cpu=1.50s mem=1MiB disk=r:0MiB/w:0MiB"
    );
    assert_eq!(
        metrics_line(0, None, &u),
        "[00:00:00] pid=0 cpu=1.50s mem=1MiB disk=r:0MiB/w:0MiB"
    );
    assert_eq!(pid_file_content(4711), "4711");
    assert_eq!(pid_file_error("/p", "denied"), "failed to write PID file '/p': denied");
}

#[test]
fn sockets_with_a_url_are_proxied() {
    let vsock = |port, url: Option<&str>, listen| {
        Device::VirtioVsock(VirtioVsock { port, socket_url: url.map(|u| u.to_string()), listen })
    };
    let proxies = collect_vsock_proxies(&vec![
        vsock(1, None, true),
        Device::VirtioRng,
        vsock(2, Some("/a"), true),
        vsock(3, Some("/b"), false),
    ]);
    let got: Vec<(u32, &str, bool)> =
        proxies.iter().map(|p| (p.port, p.socket_url.as_str(), p.listen)).collect();
    assert_eq!(got, vec![(2, "/a", true), (3, "/b", false)]);
}

#[test]
fn connect_proxy_sessions() {
    let s = ConnectProxyStage::RemoveStale.advance(false);
    assert_eq!(s, ConnectProxyStage::Bind);
    assert_eq!(s.advance(false), ConnectProxyStage::Failed);
    let s = s.advance(true);
    assert_eq!(s.advance(false), ConnectProxyStage::Accept);
    assert_eq!(
        bind_error("/s", "busy").to_string(),
        "invalid device configuration: failed to bind unix socket at /s: busy"
    );
    let s = SessionStage::Connect { port: 9 };
    assert_eq!(s.advance(false), SessionStage::Ended);
    assert_eq!(s.advance(true).advance(false), SessionStage::Ended);
    assert_eq!(s.advance(true).advance(true), SessionStage::Relay);
    assert_eq!(s.advance(true).advance(true).advance(true), SessionStage::Ended);
}

#[test]
fn guests_are_forced_only_if_they_cannot_be_asked() {
    assert_eq!(ShutdownStage::RequestStop.advance(true), ShutdownStage::Ended);
    assert_eq!(ShutdownStage::RequestStop.advance(false), ShutdownStage::ForceStop);
    assert_eq!(ShutdownStage::ForceStop.advance(false), ShutdownStage::Ended);
}

#[test]
fn guest_clock_is_set() {
    assert_eq!(
        set_time_command(1_700_000_000_000_000_000),
        "{\"execute\": \"guest-set-time\", \"arguments\": {\"time\": 1700000000000000000}}\n"
    );
    for n in [0u128, 5, i64::MAX as u128, i64::MAX as u128 + 1, u64::MAX as u128, u128::MAX] {
        assert_eq!(to_agent_time(n), n as i64);
    }
    let s = SyncStage::ReadClock.advance(SyncEvent::Clock(77));
    assert_eq!(s, SyncStage::Connect { time: 77 });
    assert_eq!(s.advance(SyncEvent::Failed), SyncStage::Abandoned);
    let s = s.advance(SyncEvent::Done);
    assert_eq!(s, SyncStage::Send { time: 77 });
    let s = s.advance(SyncEvent::Done);
    assert_eq!(s.advance(SyncEvent::Failed), SyncStage::Synchronized);
    assert_eq!(SyncStage::ReadClock.advance(SyncEvent::Failed), SyncStage::Abandoned);
}

#[test]
fn power_messages() {
    assert_eq!(power_action(0xe0000300), PowerAction::SyncTime);
    assert_eq!(power_action(0xe0000280), PowerAction::Acknowledge);
    assert_eq!(power_action(0xe0000270), PowerAction::Acknowledge);
    assert_eq!(power_action(0xe0000290), PowerAction::Ignore);
}

#[test]
fn wake_watcher_cleans_up_on_every_path() {
    let run = |values: &[u32]| {
        let mut stage = WatchStage::Register;
        let mut seen = vec![stage];
        for v in values {
            stage = stage.advance(*v);
            seen.push(stage);
        }
        seen
    };
    assert_eq!(
        run(&[0, 0]),
        vec![WatchStage::Register, WatchStage::FreeContext, WatchStage::Ended]
    );
    assert_eq!(
        run(&[5, 1, 0, 0, 0]),
        vec![
            WatchStage::Register,
            WatchStage::SetPort { root_port: 5 },
            WatchStage::GetSource,
            WatchStage::Deregister,
            WatchStage::FreeContext,
            WatchStage::Ended,
        ]
    );
    assert_eq!(run(&[5, 1, 1, 0, 0, 0])[3..], [
        WatchStage::AddSource,
        WatchStage::SyncOnce,
        WatchStage::Run,
        WatchStage::Deregister,
    ]);
}

#[test]
fn relays_deliver_what_they_read() {
    let mut relay = Relay::new(Direction::HostToGuest);
    let mut out: Vec<u8> = vec![];
    for chunk in [&b"hello "[..], &b"world"[..]] {
        assert_eq!(relay.stage(), RelayStage::Read);
        relay = relay.advance(Transfer::Received(chunk.to_vec()));
        while relay.stage() == RelayStage::Write {
            let n = relay.pending().len().min(4);
            out.extend(&relay.pending()[..n]);
            relay = relay.advance(Transfer::Sent(n));
        }
    }
    assert_eq!(out, b"hello world");
    relay = relay.advance(Transfer::Received(vec![]));
    assert_eq!(relay.stage(), RelayStage::Done);
}

#[test]
fn relays_end_with_a_failure() {
    let r = Relay::new(Direction::GuestToHost).advance(Transfer::Received(vec![1, 2, 3]));
    let r = r.advance(Transfer::Sent(1));
    assert_eq!(r.pending(), &[2, 3]);
    let r = r.advance(Transfer::Failed);
    assert_eq!(r.stage(), RelayStage::ShutdownWrite);
    assert_eq!(r.advance(Transfer::ShutDown).stage(), RelayStage::Done);
    let r = Relay::new(Direction::HostToGuest).advance(Transfer::Received(vec![1]));
    assert_eq!(r.advance(Transfer::Sent(0)).stage(), RelayStage::Done);
    assert_eq!(
        Relay::new(Direction::HostToGuest).advance(Transfer::Failed).stage(),
        RelayStage::Done
    );
    assert_eq!(
        Relay::new(Direction::GuestToHost).advance(Transfer::Received(vec![])).stage(),
        RelayStage::ShutdownWrite
    );
}

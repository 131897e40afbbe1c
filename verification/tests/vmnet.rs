use vfrust::config::device::network::{Ipv4Addr, MacAddress, VmnetConfig, VmnetMode};
use vfrust::sys::vmnet::{
    build_start_dict, null_dictionary_error, packets_callback_set, parse_params, read_packets,
    start_completed, start_interface, start_submitted, stop_interface, stop_submitted,
    write_packets, OperatingMode, StartKey, StartReply, StartSetting, StartStage, VmnetError,
    VmnetReturn,
};
use vfrust::time::Timestamp;
use vfrust::vm::vmnet_probe::{probe_config, probe_vmnet, ProbeStage, VmnetProbe};
use vfrust::vm::vmnet_proxy::{
    sockbuf_value, socket_buffer_size, socketpair_error, NetworkCounters, RxEvent, RxStage,
    StopAction, TxEvent, TxStage, VmnetProxy,
};

#[test]
fn vmnet_return_round_trip() {
    assert_eq!(VmnetReturn::from(1000), VmnetReturn::Success);
    assert_eq!(VmnetReturn::from(1005), VmnetReturn::InvalidAccess);
    assert_eq!(VmnetReturn::from(1009), VmnetReturn::SharingServiceBusy);
    assert_eq!(VmnetReturn::from(9999), VmnetReturn::Unknown);
}

#[test]
fn vmnet_return_display_mentions_entitlement_for_invalid_access() {
    let s = VmnetReturn::InvalidAccess.to_string();
    assert!(s.contains("entitlement"), "got: {s}");
}

#[test]
fn operating_mode_matches_vmnet_h_numbers() {
    assert_eq!(OperatingMode::Shared.number(), 1);
    assert_eq!(OperatingMode::Host.number(), 2);
    assert_eq!(OperatingMode::Bridged.number(), 3);
}

#[test]
fn build_start_dict_rejects_bridged_without_interface() {
    let cfg = VmnetConfig {
        mode: VmnetMode::Bridged,
        bridged_interface: None,
        ..VmnetConfig::default()
    };
    assert!(build_start_dict(&cfg).is_err());
}

#[test]
fn build_start_dict_accepts_shared_default() {
    let cfg = VmnetConfig::default();
    let dict = build_start_dict(&cfg).expect("default should build");
    assert!(!dict.is_empty());
}

#[test]
fn build_start_dict_accepts_host_with_custom_pool() {
    let cfg = VmnetConfig {
        mode: VmnetMode::Host,
        start_address: Some(Ipv4Addr::new(10, 0, 0, 2)),
        end_address: Some(Ipv4Addr::new(10, 0, 0, 100)),
        subnet_mask: Some(Ipv4Addr::new(255, 255, 255, 0)),
        allocate_mac: true,
        isolated: true,
        bridged_interface: None,
    };
    let dict = build_start_dict(&cfg).expect("host+pool should build");
    assert!(!dict.is_empty());
}

#[test]
fn vmnet_error_message_includes_context() {
    let e = VmnetError {
        code: VmnetReturn::InvalidAccess,
        context: "testing",
        detail: None,
    };
    let s = e.to_string();
    assert!(s.contains("testing"));
    assert!(s.contains("entitlement"));
}

#[test]
fn probe_vmnet_returns_a_variant_without_panicking() {
    for code in 999..1011 {
        let out = probe_vmnet(&Err::<(), VmnetError>(VmnetError {
            code: VmnetReturn::from(code),
            context: "vmnet_start_interface completion",
            detail: None,
        }));
        let s = out.to_string();
        assert!(!s.is_empty());
    }
    assert!(!probe_vmnet(&Ok(())).to_string().is_empty());
}

#[test]
fn counters_default_zero_and_snapshot_is_self_consistent() {
    let c = NetworkCounters::default();
    let s = c.snapshot(Timestamp::from_epoch_millis(0));
    assert_eq!(s.rx_bytes, 0);
    assert_eq!(s.tx_bytes, 0);
    assert_eq!(s.rx_packets, 0);
    assert_eq!(s.tx_packets, 0);
}

#[test]
fn counters_fetch_add_is_visible_to_snapshot() {
    let mut c = NetworkCounters::default();
    c.rx_bytes.fetch_add(42);
    c.tx_packets.fetch_add(7);
    let s = c.snapshot(Timestamp::from_epoch_millis(0));
    assert_eq!(s.rx_bytes, 42);
    assert_eq!(s.tx_packets, 7);
}

#[test]
fn counters_start_over_behind_their_largest_value() {
    let mut c = NetworkCounters::default();
    assert_eq!(c.rx_bytes.fetch_add(u64::MAX), 0);
    assert_eq!(c.rx_bytes.fetch_add(3), u64::MAX);
    assert_eq!(c.rx_bytes.load(), 2);
}

#[test]
fn probe_tells_denial_from_other_failures() {
    let failed = |code| Err::<(), VmnetError>(VmnetError { code, context: "c", detail: None });
    assert_eq!(probe_vmnet(&Ok(())), VmnetProbe::Available);
    assert_eq!(probe_vmnet(&failed(VmnetReturn::InvalidAccess)), VmnetProbe::Denied);
    let busy = probe_vmnet(&failed(VmnetReturn::SharingServiceBusy));
    assert_eq!(busy, VmnetProbe::Unavailable(VmnetReturn::SharingServiceBusy));
    assert_eq!(
        busy.to_string(),
        "vmnet unavailable: sharing service busy (another Shared-mode iface active?)"
    );
    assert_eq!(
        VmnetProbe::Denied.to_string(),
        "vmnet denied: run as root or codesign with a Developer ID profile that includes com.apple.vm.networking"
    );
    assert_eq!(probe_config().mode, VmnetMode::Shared);
}

#[test]
fn probe_stops_what_it_started() {
    let started = Ok::<(), VmnetError>(());
    assert_eq!(ProbeStage::Start.started(&started), ProbeStage::Stop);
    let available = ProbeStage::Finished(VmnetProbe::Available);
    assert_eq!(ProbeStage::Stop.stopped(&stop_interface(1000, 1000)), available);
    assert_eq!(ProbeStage::Stop.stopped(&stop_interface(1000, 1001)), available);
    assert_eq!(available.started(&started), available);
    assert_eq!(ProbeStage::Start.stopped(&stop_interface(1000, 1000)), ProbeStage::Start);
}

#[test]
fn probe_stops_nothing_where_none_started() {
    let failed = |code| Err::<(), VmnetError>(VmnetError { code, context: "c", detail: None });
    assert_eq!(
        ProbeStage::Start.started(&failed(VmnetReturn::InvalidAccess)),
        ProbeStage::Finished(VmnetProbe::Denied)
    );
    assert_eq!(
        ProbeStage::Start.started(&failed(VmnetReturn::SharingServiceBusy)),
        ProbeStage::Finished(VmnetProbe::Unavailable(VmnetReturn::SharingServiceBusy))
    );
}

fn describe(s: &StartSetting) -> String {
    match s {
        StartSetting::Number(k, n) => format!("{k:?}={n}"),
        StartSetting::Text(k, t) => format!("{k:?}={t}"),
        StartSetting::Flag(k, b) => format!("{k:?}={b}"),
    }
}

fn described(cfg: &VmnetConfig) -> Vec<String> {
    build_start_dict(cfg).unwrap().iter().map(describe).collect()
}

#[test]
fn start_descriptions_hold_the_settings_of_the_mode() {
    let mut cfg = VmnetConfig {
        mode: VmnetMode::Bridged,
        start_address: Some(Ipv4Addr::new(10, 0, 0, 2)),
        end_address: Some(Ipv4Addr::new(10, 0, 0, 100)),
        subnet_mask: Some(Ipv4Addr::new(255, 255, 255, 0)),
        allocate_mac: true,
        isolated: false,
        bridged_interface: Some("en0".to_string()),
    };
    assert_eq!(
        described(&cfg),
        vec![
            "OperationMode=3",
            "SharedInterfaceName=en0",
            "AllocateMacAddress=true",
            "EnableIsolation=false",
        ]
    );
    assert!(matches!(
        build_start_dict(&cfg).unwrap()[1],
        StartSetting::Text(StartKey::SharedInterfaceName, _)
    ));
    cfg.mode = VmnetMode::Host;
    assert_eq!(
        described(&cfg),
        vec![
            "OperationMode=2",
            "StartAddress=10.0.0.2",
            "EndAddress=10.0.0.100",
            "SubnetMask=255.255.255.0",
            "AllocateMacAddress=true",
            "EnableIsolation=false",
        ]
    );
    cfg.bridged_interface = Some("e\0n".to_string());
    assert_eq!(described(&cfg).len(), 6);
    assert_eq!(
        described(&VmnetConfig::default()),
        vec!["OperationMode=1", "AllocateMacAddress=false", "EnableIsolation=false"]
    );
}

#[test]
fn start_description_errors() {
    let mut cfg = VmnetConfig { mode: VmnetMode::Bridged, ..VmnetConfig::default() };
    assert_eq!(
        build_start_dict(&cfg).unwrap_err().to_string(),
        "invalid device configuration: VmnetConfig::bridged_interface is required when mode is Bridged"
    );
    match start_interface(&cfg) {
        StartStage::Failed(e) => assert_eq!(
            e.to_string(),
            "build_start_dict: invalid argument (invalid device configuration: VmnetConfig::bridged_interface is required when mode is Bridged)"
        ),
        other => panic!("unexpected {other:?}"),
    }
    cfg.bridged_interface = Some("e\0n".to_string());
    assert_eq!(
        build_start_dict(&cfg).unwrap_err().to_string(),
        "invalid device configuration: VmnetConfig::bridged_interface contains a NUL byte"
    );
    assert_eq!(
        null_dictionary_error().to_string(),
        "invalid device configuration: xpc_dictionary_create returned null"
    );
}

fn reply() -> StartReply {
    StartReply {
        mac: Some("02:00:00:00:00:01".to_string()),
        mtu: 1500,
        max_packet_size: 0x1_0000_05ea,
        start_address: Some("192.168.64.1".to_string()),
        end_address: Some("192.168.64.254".to_string()),
        subnet_mask: Some("bad".to_string()),
    }
}

#[test]
fn start_goes_through_its_stages() {
    assert!(matches!(start_interface(&VmnetConfig::default()), StartStage::Submit(s) if s.len() == 3));
    assert!(matches!(start_submitted(false), StartStage::Wait));
    match start_submitted(true) {
        StartStage::Failed(e) => {
            assert_eq!(e.code, VmnetReturn::InvalidAccess);
            assert_eq!(
                e.to_string(),
                "vmnet_start_interface returned null iface: invalid access (entitlement missing or not root?) (entitlement denied, binary not codesigned for vmnet, or insufficient privileges)"
            );
        }
        other => panic!("unexpected {other:?}"),
    }
    match start_completed(1000, &reply()) {
        StartStage::Started(p) => {
            assert_eq!(p.mac, MacAddress([2, 0, 0, 0, 0, 1]));
            assert_eq!(p.mtu, 1500);
            assert_eq!(p.max_packet_size, 0x5ea);
            assert_eq!(p.dhcp_start, Some(Ipv4Addr::new(192, 168, 64, 1)));
            assert_eq!(p.dhcp_end, Some(Ipv4Addr::new(192, 168, 64, 254)));
            assert_eq!(p.subnet_mask, None);
        }
        other => panic!("unexpected {other:?}"),
    }
    match start_completed(1001, &reply()) {
        StartStage::Failed(e) => {
            assert_eq!(e.to_string(), "vmnet_start_interface completion: generic failure")
        }
        other => panic!("unexpected {other:?}"),
    }
}

#[test]
fn reports_without_a_mac_are_refused() {
    let mut r = reply();
    r.mac = Some("x".to_string());
    assert_eq!(
        parse_params(&r).unwrap_err().to_string(),
        "vmnet returned an unparseable MAC address: generic failure"
    );
    r.mac = None;
    assert_eq!(
        parse_params(&r).unwrap_err().to_string(),
        "vmnet returned params without a MAC address: generic failure"
    );
}

#[test]
fn stop_reports_submission_and_completion() {
    assert!(stop_submitted(1000).is_ok());
    assert!(stop_interface(1000, 1000).is_ok());
    assert_eq!(
        stop_interface(1003, 1000).unwrap_err().to_string(),
        "invalid device configuration: vmnet: vmnet_stop_interface submit: invalid argument"
    );
    assert_eq!(
        stop_interface(1000, 7).unwrap_err().to_string(),
        "invalid device configuration: vmnet: vmnet_stop_interface completion: unknown return code"
    );
}

#[test]
fn packet_transfers() {
    assert_eq!(read_packets(1000, 5).unwrap(), 5);
    assert_eq!(read_packets(1000, -3).unwrap(), 0);
    assert_eq!(read_packets(1007, 5).unwrap_err().to_string(), "vmnet_read: buffer exhausted");
    assert_eq!(write_packets(1000, 1).unwrap(), 1);
    assert_eq!(write_packets(1006, 1).unwrap_err().to_string(), "vmnet_write: packet too big");
    assert!(packets_callback_set(1000).is_ok());
    assert_eq!(
        packets_callback_set(1004).unwrap_err().to_string(),
        "vmnet_interface_set_event_callback: setup incomplete"
    );
}

#[test]
fn every_code_has_a_meaning() {
    let meanings = [
        "success",
        "generic failure",
        "memory allocation failure",
        "invalid argument",
        "setup incomplete",
        "invalid access (entitlement missing or not root?)",
        "packet too big",
        "buffer exhausted",
        "too many packets",
        "sharing service busy (another Shared-mode iface active?)",
    ];
    for (i, m) in meanings.iter().enumerate() {
        assert_eq!(VmnetReturn::from(1000 + i as i32).to_string(), *m);
    }
    assert_eq!(VmnetReturn::from(-1).to_string(), "unknown return code");
    assert_eq!(OperatingMode::from(VmnetMode::Host).number(), 2);
}

#[test]
fn receiving_pump_counts_every_packet() {
    let mut c = NetworkCounters::default();
    let events = [
        RxEvent::Shutdown(false),
        RxEvent::Shutdown(false),
        RxEvent::Read(3),
        RxEvent::Shutdown(false),
        RxEvent::Written(100),
        RxEvent::Shutdown(false),
        RxEvent::WriteFailed { fatal: false },
        RxEvent::Shutdown(false),
        RxEvent::Written(50),
    ];
    let mut stage = RxStage::Check;
    for e in events {
        stage = stage.advance(&mut c, e);
    }
    assert_eq!(stage, RxStage::Drain);
    let s = c.snapshot(Timestamp::from_epoch_millis(5));
    assert_eq!((s.rx_packets, s.rx_bytes, s.rx_drops), (2, 150, 1));
    assert_eq!((s.tx_packets, s.tx_bytes, s.tx_drops), (0, 0, 0));
    stage = stage.advance(&mut c, RxEvent::ReadFailed);
    assert_eq!(stage, RxStage::Check);
    assert_eq!(c.rx_drops.load(), 2);
    assert_eq!(stage.advance(&mut c, RxEvent::Shutdown(true)), RxStage::Finished);
}

#[test]
fn receiving_pump_ends_at_once() {
    let mut c = NetworkCounters::default();
    let next = RxStage::Next { next: 1, count: 5 };
    assert_eq!(next.advance(&mut c, RxEvent::Shutdown(true)), RxStage::Finished);
    let write = RxStage::Write { next: 1, count: 5 };
    assert_eq!(write.advance(&mut c, RxEvent::WriteFailed { fatal: true }), RxStage::Finished);
    assert_eq!(write.advance(&mut c, RxEvent::Written(1)), RxStage::Next { next: 2, count: 5 });
    assert_eq!(RxStage::Drain.advance(&mut c, RxEvent::Read(0)), RxStage::Check);
    assert_eq!(
        RxStage::Drain.advance(&mut c, RxEvent::Read(1000)),
        RxStage::Next { next: 0, count: 64 }
    );
    assert_eq!(RxStage::Wait.advance(&mut c, RxEvent::Read(1)), RxStage::Wait);
}

#[test]
fn sending_pump_counts_every_packet() {
    let mut c = NetworkCounters::default();
    let events = [
        TxEvent::Shutdown(false),
        TxEvent::Read(60),
        TxEvent::Written(1),
        TxEvent::Shutdown(false),
        TxEvent::ReadFailed { interrupted: true },
        TxEvent::Shutdown(false),
        TxEvent::Read(70),
        TxEvent::Written(0),
        TxEvent::Shutdown(false),
        TxEvent::Read(80),
        TxEvent::WriteFailed,
        TxEvent::Shutdown(false),
        TxEvent::Read(0),
    ];
    let mut stage = TxStage::Check;
    for e in events {
        stage = stage.advance(&mut c, e);
    }
    assert_eq!(stage, TxStage::Finished);
    assert_eq!((c.tx_packets.load(), c.tx_bytes.load(), c.tx_drops.load()), (1, 60, 2));
    assert_eq!(c.rx_packets.load(), 0);
    assert_eq!(
        TxStage::Read.advance(&mut c, TxEvent::ReadFailed { interrupted: false }),
        TxStage::Finished
    );
}

#[test]
fn proxy_is_taken_down_once() {
    let params = match start_completed(1000, &reply()) {
        StartStage::Started(p) => p,
        other => panic!("unexpected {other:?}"),
    };
    let mut proxy = VmnetProxy::new(&params, 17);
    assert_eq!(proxy.info().mtu, 1500);
    assert_eq!(proxy.info().mac, MacAddress([2, 0, 0, 0, 0, 1]));
    assert_eq!(proxy.take_vz_fd(), 17);
    assert_eq!(proxy.take_vz_fd(), -1);
    assert_eq!(
        proxy.stop(),
        vec![
            StopAction::RaiseShutdown,
            StopAction::WakeReceiver,
            StopAction::UnblockSender,
            StopAction::JoinPumps,
            StopAction::StopInterface,
        ]
    );
    assert_eq!(proxy.stop(), vec![]);
}

#[test]
fn socket_buffers_stay_within_limits() {
    assert_eq!(socket_buffer_size(0), 131_072);
    assert_eq!(socket_buffer_size(2048), 131_072);
    assert_eq!(socket_buffer_size(4096), 262_144);
    assert_eq!(socket_buffer_size(u32::MAX), 8 * 1024 * 1024);
    assert_eq!(sockbuf_value(4096), 4096);
    assert_eq!(sockbuf_value(usize::MAX), i32::MAX);
    assert_eq!(
        socketpair_error("no").to_string(),
        "invalid device configuration: socketpair(AF_UNIX, SOCK_DGRAM) failed: no"
    );
}

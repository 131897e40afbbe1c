use vfrust::config::bootloader::{Bootloader, EfiBootloader, LinuxBootloader, MacOsBootloader};
use vfrust::config::device::network::{MacAddress, NetAttachment, VirtioNet};
use vfrust::config::device::Device;
use vfrust::config::platform::{MacOsPlatform, Platform};
use vfrust::sys::bootloader::{
    build_linux_bootloader, efi_store, efi_store_error, validate_kernel_uncompressed, EfiStore,
};
use vfrust::sys::config_builder::{
    build_generic_platform, build_vz_config, identity_outcome, json_error, path_error,
    validation_error, IdentityFile,
};
use vfrust::sys::machine::{
    operation_reply, ClaimedWorkers, DelegateEvent, InnerMachine, Operation, SearchStep,
    WorkerIdentity, WorkerSearch,
};
use vfrust::time::Timestamp;
use vfrust::vm::handle::{ProcessCounters, VmHandle, WorkerFacts};
use vfrust::vm::machine::{DropAction, VirtualMachine};
use vfrust::vm::vmnet_proxy::NetworkCounters;
use vfrust::{Error, VmConfig, VmState};

fn net(mac: Option<&str>) -> Device {
    Device::VirtioNet(VirtioNet {
        attachment: NetAttachment::Nat,
        mac_address: mac.map(|m| MacAddress::parse(m).unwrap()),
    })
}

fn config(devices: Vec<Device>) -> VmConfig {
    VmConfig::builder()
        .bootloader(Bootloader::Linux(LinuxBootloader {
            kernel_path: "/k".into(),
            initrd_path: None,
            command_line: String::new(),
        }))
        .devices(devices)
        .build()
        .unwrap()
}

fn machine() -> InnerMachine {
    InnerMachine::new(config(vec![]), &vec![], &None)
}

fn worker(pid: i32) -> Option<WorkerIdentity> {
    Some(WorkerIdentity { pid, start_abstime: 100 + pid as u64 })
}

fn macs(c: &VmConfig) -> Vec<Option<String>> {
    c.devices()
        .iter()
        .filter_map(|d| match d {
            Device::VirtioNet(n) => Some(n.mac_address.map(|m| m.to_string())),
            _ => None,
        })
        .collect()
}

#[test]
fn snapshot_fills_in_what_the_framework_made_up() {
    let c = config(vec![
        net(None),
        Device::VirtioRng,
        net(Some("02:00:00:00:00:09")),
        net(None),
        net(None),
    ]);
    let assigned = vec![
        "02:00:00:00:00:01".to_string(),
        "02:00:00:00:00:02".to_string(),
        "garbage".to_string(),
    ];
    let vm = VirtualMachine::new(c, &assigned, &Some(vec![7, 8]));
    assert_eq!(macs(vm.config()), vec![None, Some("02:00:00:00:00:09".into()), None, None]);
    assert_eq!(
        macs(vm.snapshot_config()),
        vec![
            Some("02:00:00:00:00:01".to_string()),
            Some("02:00:00:00:00:09".to_string()),
            None,
            None
        ]
    );
    assert_eq!(vm.config().machine_identifier(), None);
    assert_eq!(vm.snapshot_config().machine_identifier(), Some(&vec![7, 8]));
}

#[test]
fn snapshot_of_a_mac_has_no_generic_identifier() {
    let mac = |id: Option<Vec<u8>>| {
        VmConfig::from_parts(
            1,
            512,
            Bootloader::MacOs(MacOsBootloader {
                machine_identifier_path: "/id".into(),
                hardware_model_path: "/model".into(),
                aux_image_path: "/aux".into(),
            }),
            Platform::MacOs(MacOsPlatform {
                machine_identifier_path: "/id".into(),
                hardware_model_path: "/model".into(),
                aux_storage_path: "/aux".into(),
            }),
            vec![net(None)],
            false,
            id,
        )
        .unwrap()
    };
    let assigned = vec!["02:00:00:00:00:01".to_string()];
    let vm = VirtualMachine::new(mac(None), &assigned, &Some(vec![7]));
    assert_eq!(vm.snapshot_config().machine_identifier(), None);
    assert_eq!(macs(vm.snapshot_config()), vec![Some("02:00:00:00:00:01".to_string())]);
    let kept = VirtualMachine::new(mac(Some(vec![1])), &assigned, &Some(vec![7]));
    assert_eq!(kept.snapshot_config().machine_identifier(), Some(&vec![1]));
}

#[test]
fn complete_snapshots_are_reproduced() {
    let first = VirtualMachine::new(
        config(vec![net(None)]),
        &vec!["02:00:00:00:00:01".to_string()],
        &Some(vec![1]),
    );
    let restored = VirtualMachine::new(
        first.snapshot_config().clone(),
        &vec!["02:00:00:00:00:ff".to_string()],
        &Some(vec![2]),
    );
    assert_eq!(macs(restored.snapshot_config()), vec![Some("02:00:00:00:00:01".to_string())]);
    assert_eq!(restored.snapshot_config().machine_identifier(), Some(&vec![1]));
}

#[test]
fn handle_refuses_what_the_state_does_not_allow() {
    let mut m = machine();
    let h = VmHandle::new(&m);
    let text = |r: Result<(), Error>| r.unwrap_err().to_string();
    assert_eq!(text(h.pause(&mut m)), "VM is in state Stopped, cannot perform pause");
    assert_eq!(text(h.resume(&mut m)), "VM is in state Stopped, cannot perform resume");
    assert_eq!(text(h.stop(&mut m)), "VM is in state Stopped, cannot perform stop");
    assert_eq!(text(h.request_stop(&mut m)), "VM is in state Stopped, cannot perform request_stop");
    assert_eq!(h.state(&m), VmState::Stopped);
    assert!(h.start(&mut m).is_ok());
    assert_eq!(h.state(&m), VmState::Starting);
    assert_eq!(text(h.start(&mut m)), "VM is in state Starting, cannot perform start");
}

#[test]
fn life_cycle_of_a_machine() {
    let mut claimed = ClaimedWorkers::new();
    let mut m = machine();
    let h = VmHandle::new(&m);
    h.start(&mut m).unwrap();
    m.complete(Operation::Start, true, worker(41), &mut claimed);
    assert_eq!(m.state(), VmState::Running);
    assert_eq!(h.worker_pid(&m), Some(41));
    h.pause(&mut m).unwrap();
    assert_eq!(m.state(), VmState::Pausing);
    m.complete(Operation::Pause, true, None, &mut claimed);
    assert_eq!((m.state(), h.worker_pid(&m)), (VmState::Paused, Some(41)));
    h.save_state(&mut m, Some("/s")).unwrap();
    assert_eq!(m.state(), VmState::Saving);
    m.complete(Operation::SaveState, true, None, &mut claimed);
    assert_eq!(m.state(), VmState::Paused);
    h.resume(&mut m).unwrap();
    m.complete(Operation::Resume, true, None, &mut claimed);
    assert_eq!((m.state(), h.worker_pid(&m)), (VmState::Running, Some(41)));
    h.request_stop(&mut m).unwrap();
    assert_eq!(m.state(), VmState::Running);
    m.complete(Operation::RequestStop, true, None, &mut claimed);
    assert_eq!(m.state(), VmState::Running);
    h.stop(&mut m).unwrap();
    assert_eq!(m.state(), VmState::Stopping);
    m.complete(Operation::Stop, true, None, &mut claimed);
    assert_eq!((m.state(), h.worker_pid(&m)), (VmState::Stopped, None));
    assert!(claimed.pids().is_empty());
    h.restore_state(&mut m, Some("/s")).unwrap();
    assert_eq!(m.state(), VmState::Restoring);
    m.complete(Operation::RestoreState, true, worker(42), &mut claimed);
    assert_eq!((m.state(), h.worker_pid(&m)), (VmState::Paused, Some(42)));
}

#[test]
fn handle_refuses_paths_that_are_not_text() {
    let mut m = machine();
    let h = VmHandle::new(&m);
    let refused = "invalid VM configuration: path contains invalid UTF-8";
    assert_eq!(h.save_state(&mut m, None).unwrap_err().to_string(), refused);
    assert_eq!(m.state(), VmState::Stopped);
    assert_eq!(h.restore_state(&mut m, None).unwrap_err().to_string(), refused);
    assert_eq!(m.state(), VmState::Stopped);
}

#[test]
fn machine_refuses_paths_that_are_not_text() {
    let mut vm = VirtualMachine::new(config(vec![]), &vec![], &None);
    let refused = "invalid VM configuration: path contains invalid UTF-8";
    assert_eq!(vm.save_state(None).unwrap_err().to_string(), refused);
    assert_eq!(vm.state(), VmState::Saving);
    assert_eq!(vm.restore_state(None).unwrap_err().to_string(), refused);
    assert_eq!(vm.state(), VmState::Restoring);
}

#[test]
fn failed_operations_end_in_their_error_state() {
    let cases = [
        (Operation::Start, VmState::Error),
        (Operation::Pause, VmState::Error),
        (Operation::Resume, VmState::Error),
        (Operation::Stop, VmState::Error),
        (Operation::SaveState, VmState::Error),
        (Operation::RestoreState, VmState::Stopped),
        (Operation::RequestStop, VmState::Stopped),
    ];
    for (op, state) in cases {
        let mut claimed = ClaimedWorkers::new();
        let mut m = machine();
        m.dispatch(op);
        m.complete(op, false, worker(1), &mut claimed);
        assert_eq!(m.state(), state, "{op:?}");
        assert_eq!(m.worker(), None);
        assert!(claimed.pids().is_empty());
    }
}

#[test]
fn machines_never_share_a_worker() {
    let mut claimed = ClaimedWorkers::new();
    let (mut a, mut b) = (machine(), machine());
    a.complete(Operation::Start, true, worker(7), &mut claimed);
    b.complete(Operation::Start, true, worker(7), &mut claimed);
    assert_eq!(a.worker(), worker(7));
    assert_eq!(b.worker(), None);
    assert_eq!(b.state(), VmState::Running);
    b.complete(Operation::Start, true, worker(8), &mut claimed);
    assert_eq!(b.worker(), worker(8));
    a.notify(DelegateEvent::GuestStopped, &mut claimed);
    assert_eq!((a.state(), a.worker()), (VmState::Stopped, None));
    assert!(!claimed.pids().contains(&7) && claimed.pids().contains(&8));
}

#[test]
fn events_of_the_framework() {
    let mut claimed = ClaimedWorkers::new();
    let mut m = machine();
    m.complete(Operation::Start, true, worker(3), &mut claimed);
    m.notify(DelegateEvent::NetworkDisconnected, &mut claimed);
    assert_eq!((m.state(), m.worker()), (VmState::Running, worker(3)));
    m.notify(DelegateEvent::Error, &mut claimed);
    assert_eq!((m.state(), m.worker()), (VmState::Error, None));
    assert!(claimed.pids().is_empty());
}

#[test]
fn claims_are_exclusive() {
    let mut claimed = ClaimedWorkers::new();
    assert!(claimed.claim(5));
    assert!(!claimed.claim(5));
    claimed.release(5);
    claimed.release(6);
    assert!(claimed.claim(5));
}

#[test]
fn search_for_a_worker_gives_up_in_time() {
    let mut search = WorkerSearch::new();
    let mut waited = 0;
    loop {
        match search.looked(false) {
            SearchStep::Wait { millis } => waited += millis,
            SearchStep::GiveUp => break,
            SearchStep::Take => panic!("nothing was found"),
        }
    }
    assert_eq!((search.attempt, waited), (10, 180));
    assert_eq!(WorkerSearch::new().looked(true), SearchStep::Take);
}

#[test]
fn virtual_machine_does_not_look_at_its_state() {
    let mut claimed = ClaimedWorkers::new();
    let mut vm = VirtualMachine::new(config(vec![]), &vec![], &None);
    assert_eq!(vm.state(), VmState::Stopped);
    vm.pause();
    assert_eq!(vm.state(), VmState::Pausing);
    vm.resume();
    assert_eq!(vm.state(), VmState::Resuming);
    vm.stop();
    assert_eq!(vm.state(), VmState::Stopping);
    vm.save_state(Some("/s")).unwrap();
    assert_eq!(vm.state(), VmState::Saving);
    vm.restore_state(Some("/s")).unwrap();
    assert_eq!(vm.state(), VmState::Restoring);
    vm.request_stop();
    assert_eq!(vm.state(), VmState::Restoring);
    vm.start();
    assert_eq!(vm.state(), VmState::Starting);
    vm.complete(Operation::Start, true, worker(-2), &mut claimed);
    assert_eq!(vm.worker_pid(), Some(u32::MAX - 1));
    assert_eq!(vm.handle().state(vm.inner()), VmState::Running);
    assert!(vm.handle().pause(vm.inner_mut()).is_ok());
    assert_eq!(vm.state(), VmState::Pausing);
    vm.notify(DelegateEvent::Error, &mut claimed);
    assert_eq!(vm.state(), VmState::Error);
}

#[test]
fn machines_go_away_in_order() {
    let mut claimed = ClaimedWorkers::new();
    let mut vm = VirtualMachine::new(config(vec![]), &vec![], &None);
    assert_eq!(vm.drop_actions(), vec![DropAction::ClearDelegate { seconds: 2 }]);
    vm.complete(Operation::Start, true, None, &mut claimed);
    assert_eq!(
        vm.drop_actions(),
        vec![DropAction::Stop { seconds: 5 }, DropAction::ClearDelegate { seconds: 2 }]
    );
}

#[test]
fn replies_that_never_come() {
    assert!(operation_reply(Some(Ok(()))).is_ok());
    assert_eq!(
        operation_reply(Some(Err(Error::Timeout))).unwrap_err().to_string(),
        "operation timed out"
    );
    assert_eq!(
        operation_reply(None).unwrap_err().to_string(),
        "dispatch queue error: channel closed"
    );
}

fn counters() -> ProcessCounters {
    ProcessCounters {
        user_time: 1,
        system_time: 2,
        resident_size: 3,
        phys_footprint: 4,
        interval_max_phys_footprint: 5,
        wired_size: 6,
        diskio_bytesread: 7,
        diskio_byteswritten: 8,
        pageins: 9,
        billed_energy: 10,
        instructions: 11,
        cycles: 12,
    }
}

#[test]
fn samples_are_only_taken_of_the_same_process() {
    let mut claimed = ClaimedWorkers::new();
    let mut m = machine();
    let h = VmHandle::new(&m);
    let now = Timestamp::from_epoch_millis(77);
    let facts = WorkerFacts {
        start_abstime: Some(104),
        is_vz_worker: true,
        counters: Some(counters()),
    };
    assert!(h.resource_usage(&m, &facts, now).is_none());
    m.complete(Operation::Start, true, worker(4), &mut claimed);
    let u = h.resource_usage(&m, &facts, now).unwrap();
    assert_eq!(u.sampled_at, now);
    assert_eq!((u.cpu_user_ns, u.cpu_system_ns, u.resident_bytes), (1, 2, 3));
    assert_eq!((u.phys_footprint_bytes, u.peak_phys_footprint_bytes, u.wired_bytes), (4, 5, 6));
    assert_eq!((u.disk_read_bytes, u.disk_write_bytes, u.pageins), (7, 8, 9));
    assert_eq!((u.energy_nj, u.instructions, u.cycles), (10, 11, 12));
    for other in [
        WorkerFacts { start_abstime: Some(105), ..facts },
        WorkerFacts { start_abstime: None, ..facts },
        WorkerFacts { is_vz_worker: false, ..facts },
        WorkerFacts { counters: None, ..facts },
    ] {
        assert!(h.resource_usage(&m, &other, now).is_none());
    }
    assert_eq!(h.worker_pid(&m), Some(4));
}

#[test]
fn network_usage_has_one_sample_per_device() {
    let h = VmHandle::new(&machine());
    let mut a = NetworkCounters::default();
    a.rx_bytes.fetch_add(5);
    let now = Timestamp::from_epoch_millis(1);
    let usage = h.network_usage(&vec![a, NetworkCounters::default()], now);
    assert_eq!(usage.len(), 2);
    assert_eq!((usage[0].rx_bytes, usage[1].rx_bytes), (5, 0));
    assert_eq!(usage[1].sampled_at, now);
    assert!(h.vmnet_interfaces(&vec![]).is_empty());
}

#[test]
fn kernels_have_to_be_uncompressed() {
    let mut header = vec![0u8; 0x3C];
    header[0x38..].copy_from_slice(b"ARMd");
    assert!(validate_kernel_uncompressed(&header).is_ok());
    header.extend([9; 100]);
    assert!(validate_kernel_uncompressed(&header).is_ok());
    assert_eq!(
        validate_kernel_uncompressed(&vec![0; 0x3B]).unwrap_err().to_string(),
        "invalid bootloader configuration: kernel file too small"
    );
    header[0x3B] = 0;
    assert_eq!(
        validate_kernel_uncompressed(&header).unwrap_err().to_string(),
        "invalid bootloader configuration: kernel must be uncompressed ARM64 Image format (expected ARMd magic at offset 0x38); EFI-stub kernels should use the EFI bootloader"
    );
}

#[test]
fn bootloaders_are_built() {
    let mut linux = LinuxBootloader {
        kernel_path: "/k".into(),
        initrd_path: Some("/i".into()),
        command_line: String::new(),
    };
    let boot = build_linux_bootloader(&linux, &None).unwrap();
    assert_eq!(boot.kernel, "/k");
    assert_eq!(boot.command_line, None);
    assert_eq!(boot.initrd, Some("/i".to_string()));
    linux.command_line = "console=hvc0".into();
    let boot = build_linux_bootloader(&linux, &None).unwrap();
    assert_eq!(boot.command_line, Some("console=hvc0".to_string()));
    assert!(build_linux_bootloader(&linux, &Some(vec![])).is_err());
    let mut efi = EfiBootloader { variable_store_path: "/s".into(), create_variable_store: true };
    assert_eq!(efi_store(&efi), EfiStore::Create);
    efi.create_variable_store = false;
    assert_eq!(efi_store(&efi), EfiStore::Open);
    assert_eq!(
        efi_store_error("no").to_string(),
        "invalid bootloader configuration: EFI variable store: no"
    );
}

#[test]
fn configurations_are_checked_before_they_are_built() {
    let macos = |nested| {
        VmConfig::builder()
            .cpus(2)
            .memory_mib(1024)
            .nested(nested)
            .bootloader(Bootloader::MacOs(MacOsBootloader {
                machine_identifier_path: "/m".into(),
                hardware_model_path: "/h".into(),
                aux_image_path: "/a".into(),
            }))
            .build()
            .unwrap()
    };
    let size = build_vz_config(&macos(false)).unwrap();
    assert_eq!((size.cpus, size.memory_bytes), (2, 1 << 30));
    assert_eq!(
        build_vz_config(&macos(true)).unwrap_err().to_string(),
        "invalid VM configuration: nested virtualization is not supported with macOS bootloader"
    );
}

#[test]
fn platforms_are_checked() {
    let nested = VmConfig::builder()
        .nested(true)
        .machine_identifier(vec![4])
        .bootloader(Bootloader::Efi(EfiBootloader {
            variable_store_path: "/s".into(),
            create_variable_store: false,
        }))
        .build()
        .unwrap();
    let p = build_generic_platform(&nested, true).unwrap();
    assert!(p.nested);
    assert_eq!(p.machine_identifier, Some(vec![4]));
    assert_eq!(
        build_generic_platform(&nested, false).unwrap_err().to_string(),
        "invalid VM configuration: nested virtualization is not supported on this system"
    );
    assert!(!build_generic_platform(&config(vec![]), false).unwrap().nested);
    assert!(identity_outcome(IdentityFile::HardwareModel, Ok(true)).is_ok());
    let text = |f, r| identity_outcome(f, r).unwrap_err().to_string();
    assert_eq!(
        text(IdentityFile::HardwareModel, Ok(false)),
        "invalid VM configuration: invalid hardware model data"
    );
    assert_eq!(
        text(IdentityFile::MachineIdentifier, Ok(false)),
        "invalid VM configuration: invalid machine identifier data"
    );
    assert_eq!(text(IdentityFile::HardwareModel, Err("gone".into())), "I/O error: gone");
    assert_eq!(
        validation_error("bad".into()).to_string(),
        "configuration validation failed: bad"
    );
    assert_eq!(path_error().to_string(), "invalid VM configuration: path contains invalid UTF-8");
    assert_eq!(json_error("eof".into()).to_string(), "invalid VM configuration: eof");
}

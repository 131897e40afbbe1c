use vfrust::config::bootloader::{Bootloader, EfiBootloader, LinuxBootloader};
use vfrust::config::device::audio::VirtioSound;
use vfrust::config::device::gpu::{MacGraphics, VirtioGpu};
use vfrust::config::device::network::{
    Ipv4Addr, MacAddress, NetAttachment, VirtioNet, VmnetConfig, VmnetMode,
};
use vfrust::config::device::storage::{DiskBackend, DiskCachingMode, DiskSyncMode, VirtioBlk};
use vfrust::config::device::Device;
use vfrust::config::platform::{MacOsPlatform, Platform};
use vfrust::error::{ns_error_to_error, Error, VzErrorCode};
use vfrust::vm::state::vz_state_to_rust;
use vfrust::{VmConfig, VmState};

fn linux() -> Bootloader {
    Bootloader::Linux(LinuxBootloader {
        kernel_path: "/tmp/vmlinuz".into(),
        initrd_path: None,
        command_line: String::new(),
    })
}

#[test]
fn test_builder_requires_bootloader() {
    let result = VmConfig::builder().build();
    assert!(result.is_err());
}

#[test]
fn test_builder_defaults() {
    let config = VmConfig::builder().bootloader(linux()).build().unwrap();
    assert_eq!(config.cpus(), 1);
    assert_eq!(config.memory_mib(), 512);
    assert!(!config.nested());
}

#[test]
fn test_builder_rejects_zero_cpus() {
    let result = VmConfig::builder().cpus(0).bootloader(linux()).build();
    assert!(result.is_err());
}

#[test]
fn test_builder_rejects_low_memory() {
    let result = VmConfig::builder().memory_mib(64).bootloader(linux()).build();
    assert!(result.is_err());
}

#[test]
fn test_config_validation_rejects_no_bootloader() {
    let result = VmConfig::builder().build();
    assert!(result.is_err());
    assert!(result
        .unwrap_err()
        .to_string()
        .contains("bootloader is required"));
}

#[test]
fn test_config_empty_devices_valid() {
    let config = VmConfig::builder().bootloader(linux()).build().unwrap();
    assert!(config.devices().is_empty());
}

#[test]
fn test_config_multiple_same_device_type() {
    let config = VmConfig::builder()
        .bootloader(linux())
        .device(Device::VirtioBlk(VirtioBlk {
            path: "/tmp/disk1.img".into(),
            ..Default::default()
        }))
        .device(Device::VirtioBlk(VirtioBlk {
            path: "/tmp/disk2.img".into(),
            ..Default::default()
        }))
        .build()
        .unwrap();
    assert_eq!(config.devices().len(), 2);
}

#[test]
fn test_vm_state_predicates() {
    assert!(VmState::Stopped.can_start());
    assert!(!VmState::Stopped.can_pause());
    assert!(!VmState::Stopped.can_resume());
    assert!(!VmState::Stopped.can_stop());

    assert!(!VmState::Running.can_start());
    assert!(VmState::Running.can_pause());
    assert!(VmState::Running.can_stop());
    assert!(VmState::Running.can_request_stop());

    assert!(!VmState::Paused.can_start());
    assert!(VmState::Paused.can_resume());
    assert!(VmState::Paused.can_stop());
    assert!(!VmState::Paused.can_request_stop());

    for state in [
        VmState::Starting,
        VmState::Pausing,
        VmState::Resuming,
        VmState::Stopping,
        VmState::Error,
    ] {
        assert!(!state.can_start(), "{state:?}");
        assert!(!state.can_pause(), "{state:?}");
        assert!(!state.can_resume(), "{state:?}");
    }
}

#[test]
fn test_mac_address_parse_valid() {
    let mac = MacAddress::parse("aa:bb:cc:dd:ee:ff").unwrap();
    assert_eq!(mac.0, [0xaa, 0xbb, 0xcc, 0xdd, 0xee, 0xff]);
    assert_eq!(mac.to_string(), "aa:bb:cc:dd:ee:ff");
}

#[test]
fn test_mac_address_parse_invalid() {
    assert!(MacAddress::parse("").is_none());
    assert!(MacAddress::parse("aa:bb:cc").is_none());
    assert!(MacAddress::parse("gg:hh:ii:jj:kk:ll").is_none());
}

#[test]
fn test_mac_address_display_roundtrip() {
    let original = "01:23:45:ab:cd:ef";
    let mac = MacAddress::parse(original).unwrap();
    assert_eq!(mac.to_string(), original);
}

#[test]
fn test_efi_bootloader_config() {
    let config = VmConfig::builder()
        .bootloader(Bootloader::Efi(EfiBootloader {
            variable_store_path: "/tmp/efi.fd".into(),
            create_variable_store: true,
        }))
        .build()
        .unwrap();
    match config.bootloader() {
        Bootloader::Efi(efi) => assert!(efi.create_variable_store),
        _ => panic!("expected EFI bootloader"),
    }
}

#[test]
fn vmnet_config_default_is_shared() {
    let cfg = VmnetConfig::default();
    assert_eq!(cfg.mode, VmnetMode::Shared);
    assert!(cfg.start_address.is_none());
    assert!(!cfg.allocate_mac);
    assert!(!cfg.isolated);
    assert!(cfg.bridged_interface.is_none());
}

#[test]
fn builder_reports_the_first_unmet_requirement() {
    let text = |r: Result<VmConfig, Error>| r.unwrap_err().to_string();
    assert_eq!(
        text(VmConfig::builder().cpus(0).memory_mib(1).build()),
        "invalid VM configuration: bootloader is required"
    );
    assert_eq!(
        text(VmConfig::builder().cpus(0).memory_mib(1).bootloader(linux()).build()),
        "invalid VM configuration: cpus must be at least 1"
    );
    assert_eq!(
        text(VmConfig::builder().memory_mib(127).bootloader(linux()).build()),
        "invalid VM configuration: memory must be at least 128 MiB"
    );
    assert!(VmConfig::builder().memory_mib(128).bootloader(linux()).build().is_ok());
}

#[test]
fn builder_keeps_everything_that_was_set() {
    let config = VmConfig::builder()
        .cpus(4)
        .memory_mib(2048)
        .bootloader(linux())
        .platform(Platform::MacOs(MacOsPlatform {
            machine_identifier_path: "/id".into(),
            hardware_model_path: "/hw".into(),
            aux_storage_path: "/aux".into(),
        }))
        .device(Device::VirtioRng)
        .devices(vec![Device::VirtioBalloon, Device::UsbController])
        .nested(true)
        .machine_identifier(vec![1, 2, 3])
        .build()
        .unwrap();
    assert_eq!(config.cpus(), 4);
    assert_eq!(config.memory_mib(), 2048);
    assert!(config.nested());
    assert!(matches!(config.platform(), Platform::MacOs(m) if m.aux_storage_path == "/aux"));
    assert!(matches!(config.devices()[0], Device::VirtioRng));
    assert!(matches!(config.devices()[1], Device::VirtioBalloon));
    assert!(matches!(config.devices()[2], Device::UsbController));
    assert_eq!(config.machine_identifier(), Some(&vec![1, 2, 3]));
    let copy = config.clone();
    assert_eq!(format!("{copy:?}"), format!("{config:?}"));
}

#[test]
fn stored_parts_are_checked() {
    let parts = |cpus, memory_mib| {
        VmConfig::from_parts(cpus, memory_mib, linux(), Platform::Generic, vec![], true, None)
    };
    let config = parts(1, 128).unwrap();
    assert_eq!((config.cpus(), config.memory_mib()), (1, 128));
    assert!(config.nested() && config.machine_identifier().is_none());
    assert!(matches!(parts(0, 128), Err(Error::InvalidConfiguration(_))));
    assert!(matches!(parts(1, 127), Err(Error::InvalidConfiguration(_))));
    assert_eq!(
        parts(0, 0).unwrap_err().to_string(),
        "invalid VM configuration: cpus must be at least 1"
    );
    assert_eq!(
        parts(2, 0).unwrap_err().to_string(),
        "invalid VM configuration: memory must be at least 128 MiB"
    );
}

#[test]
fn configurations_are_put_together_from_their_parts() {
    let config = VmConfig::builder()
        .cpus(3)
        .memory_mib(256)
        .bootloader(linux())
        .device(Device::VirtioRng)
        .machine_identifier(vec![4, 5])
        .build()
        .unwrap();
    let copy = VmConfig::from_parts(
        config.cpus(),
        config.memory_mib(),
        config.bootloader().clone(),
        config.platform().clone(),
        vec![Device::VirtioRng],
        config.nested(),
        config.machine_identifier().cloned(),
    )
    .unwrap();
    assert_eq!(format!("{copy:?}"), format!("{config:?}"));
}

#[test]
fn device_defaults() {
    let gpu = VirtioGpu::default();
    assert_eq!((gpu.width, gpu.height), (800, 600));
    let mac = MacGraphics::default();
    assert_eq!((mac.width, mac.height, mac.pixels_per_inch), (1920, 1200, 144));
    let sound = VirtioSound::default();
    assert!(!sound.input && sound.output);
    let blk = VirtioBlk::default();
    assert_eq!(blk.path, "");
    assert_eq!(blk.backend, DiskBackend::Image);
    assert_eq!(blk.caching_mode, DiskCachingMode::Automatic);
    assert_eq!(blk.sync_mode, DiskSyncMode::Full);
    assert!(!blk.read_only && blk.device_id.is_none());
    assert!(matches!(Platform::default(), Platform::Generic));
}

#[test]
fn copies_hold_the_same_values() {
    let net = Device::VirtioNet(VirtioNet {
        attachment: NetAttachment::Vmnet(VmnetConfig {
            mode: VmnetMode::Bridged,
            start_address: Some(Ipv4Addr::new(10, 0, 0, 2)),
            bridged_interface: Some("en0".into()),
            ..Default::default()
        }),
        mac_address: MacAddress::parse("02:00:00:00:00:01"),
    });
    assert_eq!(format!("{:?}", net.clone()), format!("{net:?}"));
}

#[test]
fn mac_address_bytes_may_be_short_or_signed() {
    assert_eq!(MacAddress::parse("1:2:3:4:5:6").unwrap().0, [1, 2, 3, 4, 5, 6]);
    assert_eq!(MacAddress::parse("+a:B:c:D:e:F").unwrap().to_string(), "0a:0b:0c:0d:0e:0f");
    assert!(MacAddress::parse("100:0:0:0:0:0").is_none());
    assert!(MacAddress::parse("1:2:3:4:5:").is_none());
    assert!(MacAddress::parse("1:2:3:4:5:6:7").is_none());
    assert!(MacAddress::parse("-1:2:3:4:5:6").is_none());
}

#[test]
fn ipv4_addresses_are_strict_dotted_decimal() {
    for text in ["0.0.0.0", "192.168.64.1", "255.255.255.255", "10.0.0.100"] {
        assert_eq!(Ipv4Addr::parse(text).unwrap().to_string(), text);
    }
    for text in ["", "1.2.3", "1.2.3.4.5", "256.0.0.1", "01.2.3.4", "1.2.3.+4", "1..2.3", "a.b.c.d", "1.2.3.0004"] {
        assert!(Ipv4Addr::parse(text).is_none(), "{text}");
    }
    assert_eq!(Ipv4Addr::parse("1.2.3.4"), Some(Ipv4Addr(1, 2, 3, 4)));
}

#[test]
fn states_have_names_and_framework_numbers() {
    let names = [
        "Stopped", "Running", "Paused", "Error", "Starting", "Pausing", "Resuming", "Stopping",
        "Saving", "Restoring",
    ];
    for (i, name) in names.iter().enumerate() {
        assert_eq!(vz_state_to_rust(i as isize).to_string(), *name);
    }
    assert_eq!(vz_state_to_rust(10), VmState::Error);
    assert_eq!(vz_state_to_rust(-1), VmState::Error);
}

#[test]
fn error_stays_stoppable() {
    assert!(VmState::Error.can_stop());
    assert!(!VmState::Error.can_request_stop());
    assert!(!VmState::Saving.can_stop());
}

#[test]
fn framework_codes_are_told_apart() {
    assert_eq!(VzErrorCode::from_ns_code(1), VzErrorCode::Internal);
    assert_eq!(VzErrorCode::from_ns_code(12), VzErrorCode::Restore);
    assert_eq!(VzErrorCode::from_ns_code(20001), VzErrorCode::NbdNegotiationFailed);
    assert_eq!(VzErrorCode::from_ns_code(30002), VzErrorCode::DeviceAlreadyAttached);
    assert_eq!(VzErrorCode::from_ns_code(13), VzErrorCode::Unknown(13));
    assert_eq!(VzErrorCode::from_ns_code(-7).to_string(), "Unknown(-7)");
    for code in 1..=12 {
        let c = VzErrorCode::from_ns_code(code);
        assert_eq!(c.to_string(), format!("{c:?}"));
    }
}

#[test]
fn every_error_has_its_message() {
    let shown = [
        (Error::InvalidConfiguration("x".into()), "invalid VM configuration: x"),
        (Error::InvalidDevice("x".into()), "invalid device configuration: x"),
        (Error::InvalidBootloader("x".into()), "invalid bootloader configuration: x"),
        (
            Error::InvalidState { current: VmState::Paused, operation: "start" },
            "VM is in state Paused, cannot perform start",
        ),
        (
            Error::VzError { code: VzErrorCode::Save, message: "x".into() },
            "Virtualization framework error (Save): x",
        ),
        (Error::ValidationFailed("x".into()), "configuration validation failed: x"),
        (Error::FileNotFound("/x".into()), "file not found: /x"),
        (Error::Io("x".into()), "I/O error: x"),
        (Error::DispatchError("x".into()), "dispatch queue error: x"),
        (Error::Timeout, "operation timed out"),
        (Error::RosettaUnavailable, "rosetta is not available on this system"),
        (Error::RequiresAppleSilicon, "macOS platform requires Apple Silicon"),
    ];
    for (error, text) in shown {
        assert_eq!(error.to_string(), text);
    }
}

#[test]
fn framework_errors_carry_all_diagnostics() {
    let full = ns_error_to_error(
        2,
        "Failed.",
        &Some("because".into()),
        &Some("retry".into()),
        &vec!["A".into(), "B".into()],
        &Some("deeper".into()),
    );
    assert_eq!(
        full.to_string(),
        "Virtualization framework error (InvalidVirtualMachineConfiguration): Failed. Reason: because Recovery: retry userInfo keys: [A, B] underlying: deeper"
    );
    let bare = ns_error_to_error(99, "Failed.", &None, &None, &vec![], &None);
    assert_eq!(bare.to_string(), "Virtualization framework error (Unknown(99)): Failed.");
}

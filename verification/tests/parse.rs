use vfrust::cli::options::parse_opts;
use vfrust::cli::parse::{parse_bootloader, parse_device};
use vfrust::config::bootloader::Bootloader;
use vfrust::config::device::input::VirtioInput;
use vfrust::config::device::network::{NetAttachment, VmnetMode};
use vfrust::config::device::serial::SerialAttachment;
use vfrust::config::device::storage::DiskSyncMode;
use vfrust::config::device::Device;
use vfrust::time::Duration;

#[test]
fn test_parse_linux_bootloader() {
    let bl =
        parse_bootloader("linux,kernel=/tmp/vmlinuz,initrd=/tmp/initrd,cmdline=console=hvc0")
            .unwrap();
    match bl {
        Bootloader::Linux(l) => {
            assert_eq!(l.kernel_path, "/tmp/vmlinuz");
            assert_eq!(l.initrd_path, Some("/tmp/initrd".to_string()));
            assert_eq!(l.command_line, "console=hvc0");
        }
        _ => panic!("expected Linux bootloader"),
    }
}

#[test]
fn test_parse_efi_bootloader() {
    let bl = parse_bootloader("efi,variable-store=/tmp/efi.fd,create").unwrap();
    match bl {
        Bootloader::Efi(e) => {
            assert_eq!(e.variable_store_path, "/tmp/efi.fd");
            assert!(e.create_variable_store);
        }
        _ => panic!("expected EFI bootloader"),
    }
}

#[test]
fn test_parse_virtio_blk() {
    let dev = parse_device("virtio-blk,path=/tmp/disk.img,readonly").unwrap();
    match dev {
        Device::VirtioBlk(blk) => {
            assert_eq!(blk.path, "/tmp/disk.img");
            assert!(blk.read_only);
        }
        _ => panic!("expected VirtioBlk"),
    }
}

#[test]
fn test_parse_virtio_net_nat() {
    let dev = parse_device("virtio-net,nat").unwrap();
    match dev {
        Device::VirtioNet(net) => {
            assert!(matches!(net.attachment, NetAttachment::Nat));
        }
        _ => panic!("expected VirtioNet"),
    }
}

#[test]
fn test_parse_virtio_serial_stdio() {
    let dev = parse_device("virtio-serial,stdio").unwrap();
    match dev {
        Device::VirtioSerial(s) => {
            assert!(matches!(s.attachment, SerialAttachment::Stdio));
        }
        _ => panic!("expected VirtioSerial"),
    }
}

#[test]
fn test_parse_virtio_rng() {
    let dev = parse_device("virtio-rng").unwrap();
    assert!(matches!(dev, Device::VirtioRng));
}

#[test]
fn test_parse_virtio_sound_defaults() {
    let dev = parse_device("virtio-sound").unwrap();
    match dev {
        Device::VirtioSound(s) => {
            assert!(!s.input);
            assert!(s.output);
        }
        _ => panic!("expected VirtioSound"),
    }
}

#[test]
fn test_parse_virtio_sound_with_input() {
    let dev = parse_device("virtio-sound,input").unwrap();
    match dev {
        Device::VirtioSound(s) => {
            assert!(s.input);
            assert!(s.output);
        }
        _ => panic!("expected VirtioSound"),
    }
}

#[test]
fn test_parse_virtio_sound_no_output() {
    let dev = parse_device("virtio-sound,input,no-output").unwrap();
    match dev {
        Device::VirtioSound(s) => {
            assert!(s.input);
            assert!(!s.output);
        }
        _ => panic!("expected VirtioSound"),
    }
}

#[test]
fn test_parse_mac_graphics_defaults() {
    let dev = parse_device("mac-graphics").unwrap();
    match dev {
        Device::MacGraphics(g) => {
            assert_eq!(g.width, 1920);
            assert_eq!(g.height, 1200);
            assert_eq!(g.pixels_per_inch, 144);
        }
        _ => panic!("expected MacGraphics"),
    }
}

#[test]
fn test_parse_mac_graphics_custom() {
    let dev = parse_device("mac-graphics,width=2560,height=1600,pixelsPerInch=220").unwrap();
    match dev {
        Device::MacGraphics(g) => {
            assert_eq!(g.width, 2560);
            assert_eq!(g.height, 1600);
            assert_eq!(g.pixels_per_inch, 220);
        }
        _ => panic!("expected MacGraphics"),
    }
}

#[test]
fn test_parse_usb_controller() {
    let dev = parse_device("usb-controller").unwrap();
    assert!(matches!(dev, Device::UsbController));
}

#[test]
fn test_parse_virtio_fs_single() {
    let dev = parse_device("virtio-fs,sharedDir=/tmp/share,mountTag=mytag").unwrap();
    match dev {
        Device::VirtioFs(fs) => {
            assert_eq!(fs.shared_dir, Some("/tmp/share".to_string()));
            assert_eq!(fs.mount_tag, "mytag");
            assert!(fs.directories.is_empty());
        }
        _ => panic!("expected VirtioFs"),
    }
}

#[test]
fn test_parse_virtio_fs_multi_dirs() {
    let dev =
        parse_device("virtio-fs,mountTag=multi,dir.home=/home,dir.etc=/etc,rodir.logs=/var/log")
            .unwrap();
    match dev {
        Device::VirtioFs(fs) => {
            assert_eq!(fs.mount_tag, "multi");
            assert!(fs.shared_dir.is_none());
            assert_eq!(fs.directories.len(), 3);
            let home = fs.directories.iter().find(|d| d.name == "home").unwrap();
            assert_eq!(home.path, "/home");
            assert!(!home.read_only);
            let logs = fs.directories.iter().find(|d| d.name == "logs").unwrap();
            assert_eq!(logs.path, "/var/log");
            assert!(logs.read_only);
        }
        _ => panic!("expected VirtioFs"),
    }
}

#[test]
fn test_parse_virtio_fs_requires_dir_or_shared() {
    let result = parse_device("virtio-fs,mountTag=empty");
    assert!(result.is_err());
}

#[test]
fn options_keep_the_last_value_at_the_first_place() {
    let opts = parse_opts("a=1,b,a=2,c=x=y");
    assert_eq!(opts.len(), 3);
    assert_eq!((opts.key(0), opts.value(0)), ("a", "2"));
    assert_eq!((opts.key(1), opts.value(1)), ("b", "true"));
    assert_eq!((opts.key(2), opts.value(2)), ("c", "x=y"));
    assert_eq!(opts.get("a"), Some("2".to_string()));
    assert_eq!(opts.get("d"), None);
    assert!(opts.contains_key("b") && !opts.contains_key("true"));
    assert!(parse_opts("").is_empty());
    assert!(!parse_opts(",").is_empty());
    assert_eq!(parse_opts("=v").get(""), Some("v".to_string()));
}

#[test]
fn bootloader_messages() {
    let err = |s: &str| parse_bootloader(s).unwrap_err();
    assert_eq!(err("linux"), "linux bootloader requires 'kernel' option");
    assert_eq!(err("efi,create"), "efi bootloader requires 'variable-store' option");
    assert_eq!(err("macos"), "macos bootloader requires 'machineIdentifierPath'");
    assert_eq!(
        err("macos,machineIdentifierPath=a"),
        "macos bootloader requires 'hardwareModelPath'"
    );
    assert_eq!(
        err("macos,machineIdentifierPath=a,hardwareModelPath=b"),
        "macos bootloader requires 'auxImagePath'"
    );
    assert_eq!(err("grub,kernel=x"), "unknown bootloader type: grub");
    assert_eq!(err(""), "unknown bootloader type: ");
}

#[test]
fn macos_bootloader_is_read() {
    let spec = "macos,machineIdentifierPath=/a,hardwareModelPath=/b,auxImagePath=/c";
    match parse_bootloader(spec).unwrap() {
        Bootloader::MacOs(m) => {
            assert_eq!(m.machine_identifier_path, "/a");
            assert_eq!(m.hardware_model_path, "/b");
            assert_eq!(m.aux_image_path, "/c");
        }
        _ => panic!("expected macOS bootloader"),
    }
}

#[test]
fn device_messages() {
    let err = |s: &str| parse_device(s).unwrap_err();
    assert_eq!(err("virtio-blk"), "virtio-blk requires 'path' option");
    assert_eq!(err("nvme,readonly"), "nvme requires 'path' option");
    assert_eq!(err("usb-mass-storage"), "usb-mass-storage requires 'path' option");
    assert_eq!(err("nbd"), "nbd requires 'uri' option");
    assert_eq!(err("virtio-net,fd=x"), "invalid fd value");
    assert_eq!(err("virtio-vsock"), "virtio-vsock requires 'port' option");
    assert_eq!(err("virtio-vsock,port=-1"), "invalid port value");
    assert_eq!(err("virtio-vsock,port=4294967296"), "invalid port value");
    assert_eq!(err("virtio-fs,sharedDir=/x"), "virtio-fs requires 'mountTag' option");
    assert_eq!(
        err("virtio-fs,mountTag=t"),
        "virtio-fs requires 'sharedDir' or at least one 'dir.<name>=<path>'"
    );
    assert_eq!(err("floppy"), "unknown device type: floppy");
}

#[test]
fn nbd_options() {
    match parse_device("nbd,uri=nbd://h/x,deviceId=d,timeout=1500,sync=none,readonly").unwrap() {
        Device::Nbd(n) => {
            assert_eq!(n.uri, "nbd://h/x");
            assert_eq!(n.device_id, Some("d".to_string()));
            assert_eq!(n.timeout, Some(Duration::from_millis(1500)));
            assert_eq!(n.sync_mode, DiskSyncMode::NoSync);
            assert!(n.read_only);
        }
        _ => panic!("expected Nbd"),
    }
    match parse_device("nbd,uri=u,timeout=soon,sync=fsync").unwrap() {
        Device::Nbd(n) => {
            assert_eq!(n.timeout, None);
            assert_eq!(n.sync_mode, DiskSyncMode::Fsync);
        }
        _ => panic!("expected Nbd"),
    }
    match parse_device("nbd,uri=u,sync=odd").unwrap() {
        Device::Nbd(n) => assert_eq!(n.sync_mode, DiskSyncMode::Full),
        _ => panic!("expected Nbd"),
    }
}

#[test]
fn network_attachments_in_order_of_precedence() {
    let attachment = |s: &str| match parse_device(s).unwrap() {
        Device::VirtioNet(n) => n.attachment,
        _ => panic!("expected VirtioNet"),
    };
    assert!(matches!(attachment("virtio-net"), NetAttachment::Nat));
    assert!(matches!(attachment("virtio-net,mac=02:00:00:00:00:01"), NetAttachment::Nat));
    assert!(matches!(attachment("virtio-net,vmnet,nat"), NetAttachment::Nat));
    assert!(matches!(
        attachment("virtio-net,fd=3,unixSocketPath=/s"),
        NetAttachment::UnixSocket { path } if path == "/s"
    ));
    assert!(matches!(
        attachment("virtio-net,vmnet,fd=-5"),
        NetAttachment::FileDescriptor { fd: -5 }
    ));
    match attachment("virtio-net,vmnet,mode=bridged,bridgedInterface=en0,isolated,allocateMac") {
        NetAttachment::Vmnet(cfg) => {
            assert_eq!(cfg.mode, VmnetMode::Bridged);
            assert_eq!(cfg.bridged_interface, Some("en0".to_string()));
            assert!(cfg.isolated && cfg.allocate_mac);
            assert!(cfg.start_address.is_none());
        }
        _ => panic!("expected Vmnet"),
    }
    assert!(matches!(
        attachment("virtio-net,vmnet,mode=other"),
        NetAttachment::Vmnet(cfg) if cfg.mode == VmnetMode::Shared
    ));
}

#[test]
fn network_mac_is_left_out_where_it_is_no_address() {
    let mac = |s: &str| match parse_device(s).unwrap() {
        Device::VirtioNet(n) => n.mac_address,
        _ => panic!("expected VirtioNet"),
    };
    assert_eq!(mac("virtio-net,nat,mac=02:00:00:00:00:01").unwrap().0, [2, 0, 0, 0, 0, 1]);
    assert!(mac("virtio-net,nat,mac=nonsense").is_none());
}

#[test]
fn remaining_device_kinds() {
    assert!(matches!(
        parse_device("virtio-serial,pty").unwrap(),
        Device::VirtioSerial(s) if matches!(s.attachment, SerialAttachment::Pty)
    ));
    assert!(matches!(
        parse_device("virtio-serial,logFilePath=/l").unwrap(),
        Device::VirtioSerial(s) if matches!(&s.attachment, SerialAttachment::File { path } if path == "/l")
    ));
    assert!(matches!(
        parse_device("virtio-vsock,port=1024,socketURL=/s,listen").unwrap(),
        Device::VirtioVsock(v) if v.port == 1024 && v.listen && v.socket_url.as_deref() == Some("/s")
    ));
    assert!(matches!(
        parse_device("virtio-gpu,width=640,height=x").unwrap(),
        Device::VirtioGpu(g) if g.width == 640 && g.height == 600
    ));
    assert!(matches!(
        parse_device("virtio-input").unwrap(),
        Device::VirtioInput(VirtioInput::Keyboard)
    ));
    assert!(matches!(
        parse_device("virtio-input,pointing").unwrap(),
        Device::VirtioInput(VirtioInput::Pointing)
    ));
    assert!(matches!(
        parse_device("rosetta").unwrap(),
        Device::Rosetta(r) if r.mount_tag == "rosetta" && !r.install && !r.ignore_if_missing
    ));
    assert!(matches!(
        parse_device("rosetta,mountTag=x86,install,ignoreIfMissing").unwrap(),
        Device::Rosetta(r) if r.mount_tag == "x86" && r.install && r.ignore_if_missing
    ));
    assert!(matches!(parse_device("virtio-balloon").unwrap(), Device::VirtioBalloon));
    assert!(matches!(
        parse_device("nvme,path=/d").unwrap(),
        Device::Nvme(n) if n.path == "/d" && !n.read_only
    ));
    assert!(matches!(
        parse_device("usb-mass-storage,path=/d,readonly").unwrap(),
        Device::UsbMassStorage(n) if n.path == "/d" && n.read_only
    ));
}

#[test]
fn directories_come_in_the_order_given() {
    match parse_device("virtio-fs,rodir.z=/z,mountTag=t,dir.a=/a,rodir.z=/y").unwrap() {
        Device::VirtioFs(fs) => {
            let got: Vec<(&str, &str, bool)> = fs
                .directories
                .iter()
                .map(|d| (d.name.as_str(), d.path.as_str(), d.read_only))
                .collect();
            assert_eq!(got, vec![("z", "/y", true), ("a", "/a", false)]);
        }
        _ => panic!("expected VirtioFs"),
    }
}

use vfrust::config::device::audio::VirtioSound;
use vfrust::config::device::fs::{Rosetta, SharedDir, VirtioFs};
use vfrust::config::device::gpu::{MacGraphics, VirtioGpu};
use vfrust::config::device::input::VirtioInput;
use vfrust::config::device::network::{MacAddress, NetAttachment, VirtioNet, VmnetConfig};
use vfrust::config::device::storage::{
    DiskBackend, DiskCachingMode, DiskSyncMode, Nbd, VirtioBlk,
};
use vfrust::config::device::vsock::VirtioVsock;
use vfrust::config::device::Device;
use vfrust::sys::block_device::{validate_block_device_id, BlkSetup, BlkStage};
use vfrust::sys::device::{
    attachment_error, build_nbd, device_class, devices_of_class, fs_share, nbd_sync,
    nbd_timeout_nanos, net_mac_text, openpty_error, proxied_devices, pty_path, raw_mode,
    rosetta_install_outcome, rosetta_share_error, rosetta_step, sound_streams, AttachmentKind,
    DeviceClass, FsShare, RosettaAvailability, RosettaStep, SoundStream,
};
use vfrust::sys::unix_socket::{
    local_socket_name, SocketStage, UnixSocketSetup, RECEIVE_BUFFER, SEND_BUFFER,
};
use vfrust::time::Duration;
use vfrust::vsock::{
    check_connection_fd, connect_vsock, get_first_vsock_device, listen_vsock,
    listener_should_accept, ConnectAnswer, Offer, VsockConnection,
};
use vfrust::Error;

fn net(attachment: NetAttachment, mac: Option<&str>) -> VirtioNet {
    VirtioNet { attachment, mac_address: mac.map(|m| MacAddress::parse(m).unwrap()) }
}

#[test]
fn devices_are_sorted_into_lists() {
    let devices = vec![
        Device::VirtioBlk(VirtioBlk::default()),
        Device::VirtioRng,
        Device::VirtioNet(net(NetAttachment::Nat, None)),
        Device::VirtioGpu(VirtioGpu::default()),
        Device::VirtioInput(VirtioInput::Pointing),
        Device::MacGraphics(MacGraphics::default()),
        Device::VirtioInput(VirtioInput::Keyboard),
        Device::UsbController,
        Device::VirtioBalloon,
        Device::VirtioSound(VirtioSound::default()),
        Device::VirtioVsock(VirtioVsock { port: 1, socket_url: None, listen: false }),
        Device::VirtioBlk(VirtioBlk::default()),
    ];
    let of = |c| devices_of_class(&devices, c);
    assert_eq!(of(DeviceClass::Storage), vec![0, 11]);
    assert_eq!(of(DeviceClass::Network), vec![2]);
    assert_eq!(of(DeviceClass::Graphics), vec![3, 5]);
    assert_eq!(of(DeviceClass::Pointing), vec![4]);
    assert_eq!(of(DeviceClass::Keyboard), vec![6]);
    assert_eq!(of(DeviceClass::UsbController), vec![7]);
    assert_eq!(of(DeviceClass::Balloon), vec![8]);
    assert_eq!(of(DeviceClass::Audio), vec![9]);
    assert_eq!(of(DeviceClass::Socket), vec![10]);
    assert_eq!(of(DeviceClass::Entropy), vec![1]);
    assert!(of(DeviceClass::Serial).is_empty());
    assert!(of(DeviceClass::DirectorySharing).is_empty());
    assert_eq!(device_class(&devices[5]), DeviceClass::Graphics);
}

#[test]
fn only_vmnet_devices_are_proxied() {
    let devices = vec![
        Device::VirtioNet(net(NetAttachment::Nat, None)),
        Device::VirtioNet(net(NetAttachment::Vmnet(VmnetConfig::default()), None)),
        Device::VirtioRng,
        Device::VirtioNet(net(NetAttachment::FileDescriptor { fd: 3 }, None)),
        Device::VirtioNet(net(NetAttachment::UnixSocket { path: "/s".into() }, None)),
        Device::VirtioNet(net(NetAttachment::Vmnet(VmnetConfig::default()), None)),
    ];
    assert_eq!(proxied_devices(&devices), vec![1, 5]);
}

#[test]
fn mac_addresses_of_network_devices() {
    let assigned = MacAddress::parse("02:00:00:00:00:0a");
    let plain = net(NetAttachment::Nat, Some("02:00:00:00:00:01"));
    assert_eq!(net_mac_text(&plain, &assigned), Some("02:00:00:00:00:01".to_string()));
    assert_eq!(net_mac_text(&net(NetAttachment::Nat, None), &assigned), None);
    let asking = NetAttachment::Vmnet(VmnetConfig { allocate_mac: true, ..Default::default() });
    let asking = net(asking, Some("02:00:00:00:00:01"));
    assert_eq!(net_mac_text(&asking, &assigned), Some("02:00:00:00:00:0a".to_string()));
    assert_eq!(net_mac_text(&asking, &None), Some("02:00:00:00:00:01".to_string()));
    let pinned = net(NetAttachment::Vmnet(VmnetConfig::default()), Some("02:00:00:00:00:01"));
    assert_eq!(net_mac_text(&pinned, &assigned), Some("02:00:00:00:00:01".to_string()));
}

#[test]
fn block_device_identifiers() {
    assert!(validate_block_device_id("").is_ok());
    assert!(validate_block_device_id("12345678901234567890").is_ok());
    assert_eq!(
        validate_block_device_id("123456789012345678901").unwrap_err().to_string(),
        "invalid device configuration: block device identifier must be at most 20 ASCII bytes, got 21 bytes"
    );
    assert_eq!(
        validate_block_device_id("d\u{e9}").unwrap_err().to_string(),
        "invalid device configuration: block device identifier must be at most 20 ASCII bytes, got 3 bytes"
    );
}

fn blk(backend: DiskBackend, id: Option<&str>) -> VirtioBlk {
    VirtioBlk {
        path: "/dev/disk9".into(),
        read_only: true,
        backend,
        device_id: id.map(|s| s.to_string()),
        caching_mode: DiskCachingMode::Cached,
        sync_mode: DiskSyncMode::Fsync,
    }
}

#[test]
fn disk_images_are_attached() {
    let mut s = BlkSetup::begin(&blk(DiskBackend::Image, Some("root")));
    assert_eq!(
        s.stage(),
        BlkStage::AttachImage {
            read_only: true,
            caching: DiskCachingMode::Cached,
            sync: DiskSyncMode::Fsync
        }
    );
    s.advance(Ok(0));
    assert_eq!(s.stage(), BlkStage::Identify);
    assert_eq!(s.device_id(), Some("root"));
    let mut s = BlkSetup::begin(&blk(DiskBackend::Image, None));
    s.advance(Ok(0));
    assert_eq!(s.stage(), BlkStage::Finish);
    let mut s = BlkSetup::begin(&blk(DiskBackend::Image, None));
    s.advance(Err("bad".into()));
    assert_eq!(s.stage(), BlkStage::Failed);
    assert_eq!(
        s.into_failure().unwrap().to_string(),
        "invalid device configuration: virtio-blk attachment: bad"
    );
}

#[test]
fn block_devices_are_opened_and_attached() {
    let mut s = BlkSetup::begin(&blk(DiskBackend::BlockDevice, None));
    assert_eq!(s.stage(), BlkStage::Stat);
    s.advance(Ok(0o060640));
    assert_eq!(s.stage(), BlkStage::Open { read_only: true });
    s.advance(Ok(12));
    assert_eq!(s.stage(), BlkStage::AttachDevice { fd: 12, read_only: true });
    s.advance(Ok(0));
    assert_eq!(s.stage(), BlkStage::Finish);
    assert!(s.into_failure().is_none());
}

#[test]
fn block_device_failures() {
    let fail = |id: Option<&str>, answers: Vec<Result<i32, String>>| {
        let mut s = BlkSetup::begin(&blk(DiskBackend::BlockDevice, id));
        for a in answers {
            s.advance(a);
        }
        assert_eq!(s.stage(), BlkStage::Failed);
        s.into_failure().unwrap().to_string()
    };
    let p = "invalid device configuration: ";
    assert_eq!(fail(None, vec![Err("e".into())]), format!("{p}cannot stat block device path: e"));
    assert_eq!(
        fail(None, vec![Ok(0o100644)]),
        format!("{p}path is not a block device: /dev/disk9")
    );
    let block = 0o060000;
    assert_eq!(
        fail(None, vec![Ok(block), Err("e".into())]),
        format!("{p}cannot open block device: e")
    );
    assert_eq!(
        fail(None, vec![Ok(block), Ok(3), Err("e".into())]),
        format!("{p}block device attachment: e")
    );
    assert_eq!(
        fail(Some("123456789012345678901"), vec![Ok(block), Ok(3), Ok(0)]),
        format!("{p}block device identifier must be at most 20 ASCII bytes, got 21 bytes")
    );
    let mut nul = blk(DiskBackend::BlockDevice, None);
    nul.path = "/dev/\0".into();
    assert_eq!(
        BlkSetup::begin(&nul).into_failure().unwrap().to_string(),
        format!("{p}block device path contains null bytes")
    );
}

#[test]
fn unix_sockets_are_set_up_step_by_step() {
    assert_eq!(local_socket_name(77), "vfrust-net-77");
    let mut s = UnixSocketSetup::begin("/remote", "/tmp/local").unwrap();
    assert_eq!((s.remote(), s.local()), ("/remote", "/tmp/local"));
    let expected = [
        (SocketStage::Create, 5),
        (SocketStage::Unlink { sock: 5 }, -1),
        (SocketStage::Bind { sock: 5 }, 0),
        (SocketStage::Connect { sock: 5 }, 0),
        (SocketStage::SetSendBuffer { sock: 5 }, -1),
        (SocketStage::SetReceiveBuffer { sock: 5 }, 0),
        (SocketStage::Duplicate { sock: 5 }, 6),
        (SocketStage::CloseOriginal { sock: 5, duplicate: 6 }, 0),
    ];
    for (stage, ret) in expected {
        assert_eq!(s.stage(), stage);
        s.advance(ret, "ignored");
    }
    assert_eq!(s.stage(), SocketStage::Finished { fd: 6 });
    s.advance(0, "");
    assert_eq!(s.stage(), SocketStage::Finished { fd: 6 });
    assert!(s.into_failure().is_none());
    assert_eq!((SEND_BUFFER, RECEIVE_BUFFER), (1024 * 1024, 4 * 1024 * 1024));
}

fn socket_failure(remote: &str, local: &str, rets: &[i32]) -> (SocketStage, String) {
    let mut s = UnixSocketSetup::begin(remote, local).unwrap();
    for r in rets {
        s.advance(*r, "os");
    }
    let stage = s.stage();
    (stage, s.into_failure().unwrap().to_string())
}

#[test]
fn unix_socket_failures_close_the_socket() {
    let p = "invalid device configuration: ";
    let closing = SocketStage::CloseFailed { sock: 5 };
    assert_eq!(
        socket_failure("/r", "/l", &[-1]),
        (SocketStage::Failed, format!("{p}socket(AF_UNIX, SOCK_DGRAM) failed: os"))
    );
    assert_eq!(
        socket_failure("/r", "/l\0", &[5]),
        (closing, format!("{p}local socket path contains null bytes"))
    );
    let long = "x".repeat(104);
    assert_eq!(
        socket_failure("/r", &long, &[5, 0]),
        (closing, format!("{p}local ephemeral socket path too long"))
    );
    assert_eq!(
        socket_failure("/r", "/l", &[5, 0, -1]),
        (closing, format!("{p}bind() failed for unix socket: os"))
    );
    assert_eq!(
        socket_failure("/r\0", "/l", &[5, 0, 0]),
        (closing, format!("{p}remote socket path contains null bytes"))
    );
    assert_eq!(
        socket_failure("/r", "/l", &[5, 0, 0, -1]),
        (closing, format!("{p}connect() failed for unix socket to /r: os"))
    );
    assert_eq!(
        socket_failure("/r", "/l", &[5, 0, 0, 0, 0, 0, -1]),
        (closing, format!("{p}dup() failed: os"))
    );
    assert_eq!(
        socket_failure("/r", "/l", &[5, 0, 0, 0, 0, 0, -1, 0]).0,
        SocketStage::Failed
    );
}

#[test]
fn unix_socket_paths_have_a_limit() {
    assert!(UnixSocketSetup::begin(&"x".repeat(103), "/l").is_ok());
    assert_eq!(
        UnixSocketSetup::begin(&"\u{e9}".repeat(52), "/l").unwrap_err().to_string(),
        "invalid device configuration: unix socket path too long (104 bytes, max 103)"
    );
}

#[test]
fn network_block_devices() {
    let mut nbd = Nbd {
        uri: "nbd://h".into(),
        device_id: Some("id".into()),
        timeout: Some(Duration::from_millis(3)),
        sync_mode: DiskSyncMode::Fsync,
        read_only: false,
    };
    assert_eq!(build_nbd(&nbd, true, Ok(())).unwrap(), Some("id".to_string()));
    assert_eq!(
        build_nbd(&nbd, false, Ok(())).unwrap_err().to_string(),
        "invalid device configuration: invalid NBD URI: nbd://h"
    );
    assert_eq!(
        build_nbd(&nbd, true, Err("e".into())).unwrap_err().to_string(),
        "invalid device configuration: nbd attachment: e"
    );
    assert_eq!(nbd_timeout_nanos(&nbd), 3_000_000);
    nbd.timeout = None;
    nbd.device_id = Some("\u{e9}".into());
    assert_eq!(nbd_timeout_nanos(&nbd), 0);
    assert!(build_nbd(&nbd, true, Ok(())).is_err());
    nbd.device_id = None;
    assert_eq!(build_nbd(&nbd, true, Ok(())).unwrap(), None);
    assert!(nbd_sync(DiskSyncMode::Full) && nbd_sync(DiskSyncMode::Fsync));
    assert!(!nbd_sync(DiskSyncMode::NoSync));
}

#[test]
fn attachment_errors_name_the_device() {
    let text = |k| attachment_error(k, "e").to_string();
    let p = "invalid device configuration: ";
    assert_eq!(text(AttachmentKind::Nvme), format!("{p}nvme attachment: e"));
    assert_eq!(text(AttachmentKind::UsbMassStorage), format!("{p}usb-mass-storage attachment: e"));
    assert_eq!(text(AttachmentKind::Nbd), format!("{p}nbd attachment: e"));
    assert_eq!(text(AttachmentKind::SerialFile), format!("{p}serial file attachment: e"));
    assert_eq!(openpty_error("e").to_string(), format!("{p}openpty() failed: e"));
}

#[test]
fn raw_mode_clears_three_flags() {
    assert_eq!(raw_mode(0b1111, 0b1111, 0b0100, 0b0001, 0b1000), (0b1011, 0b0110));
    assert_eq!(raw_mode(0, 0, 1, 2, 4), (0, 0));
}

#[test]
fn pseudo_terminals_have_some_name() {
    let some = |s: &str| Some(s.to_string());
    assert_eq!(pty_path(some("/dev/a"), some("/dev/b")), "/dev/a");
    assert_eq!(pty_path(None, some("/dev/b")), "/dev/b");
    assert_eq!(pty_path(None, None), "<unknown>");
}

#[test]
fn sound_has_output_before_input() {
    let streams = |input, output| sound_streams(&VirtioSound { input, output });
    assert_eq!(streams(true, true), vec![SoundStream::Output, SoundStream::Input]);
    assert_eq!(streams(true, false), vec![SoundStream::Input]);
    assert_eq!(streams(false, false), vec![]);
}

#[test]
fn named_directories_come_before_a_single_one() {
    let mut fs = VirtioFs {
        mount_tag: "t".into(),
        shared_dir: Some("/one".into()),
        directories: vec![SharedDir { name: "n".into(), path: "/p".into(), read_only: true }],
    };
    match fs_share(&fs).unwrap() {
        FsShare::Multiple(dirs) => {
            assert_eq!((dirs[0].name.as_str(), dirs[0].path.as_str()), ("n", "/p"));
            assert!(dirs[0].read_only);
        }
        FsShare::Single(_) => panic!("expected several directories"),
    }
    fs.directories.clear();
    assert!(matches!(fs_share(&fs).unwrap(), FsShare::Single(p) if p == "/one"));
    fs.shared_dir = None;
    assert_eq!(
        fs_share(&fs).unwrap_err().to_string(),
        "invalid device configuration: virtio-fs requires either shared_dir or directories to be set"
    );
}

#[test]
fn rosetta_is_installed_only_on_request() {
    let rosetta = |install, ignore_if_missing| Rosetta {
        mount_tag: "r".into(),
        install,
        ignore_if_missing,
    };
    let step = |install, ignore, a| rosetta_step(&rosetta(install, ignore), a);
    let missing = RosettaAvailability::NotInstalled;
    assert_eq!(step(true, false, missing).unwrap(), RosettaStep::Install);
    assert!(matches!(step(false, false, missing), Err(Error::RosettaUnavailable)));
    assert!(matches!(step(false, true, missing), Err(Error::RosettaUnavailable)));
    let unsupported = RosettaAvailability::NotSupported;
    assert!(matches!(step(true, true, unsupported), Err(Error::RosettaUnavailable)));
    assert_eq!(
        step(false, false, RosettaAvailability::Installed).unwrap(),
        RosettaStep::Share
    );
    assert!(rosetta_install_outcome(Some(Ok(()))).is_ok());
    assert_eq!(
        rosetta_install_outcome(Some(Err("e".into()))).unwrap_err().to_string(),
        "invalid device configuration: rosetta installation failed: e"
    );
    assert_eq!(
        rosetta_install_outcome(None).unwrap_err().to_string(),
        "dispatch queue error: rosetta install channel closed"
    );
    assert_eq!(
        rosetta_share_error("e").to_string(),
        "invalid device configuration: failed to create rosetta directory share: e"
    );
}

#[test]
fn vsock_connections_are_duplicated() {
    let c = VsockConnection::from_duplicate(3, 4, "os".into(), 10, 20).unwrap();
    assert_eq!((c.fd(), c.source_port(), c.destination_port()), (4, 10, 20));
    assert_eq!(c.read(5, "os".into()), Ok(5));
    assert_eq!(c.read(-1, "os".into()), Err("os".to_string()));
    assert_eq!(c.write(0, "os".into()), Ok(0));
    assert_eq!(c.write(-1, "os".into()), Err("os".to_string()));
    assert!(check_connection_fd(0).is_ok());
    assert_eq!(
        VsockConnection::from_duplicate(-1, 4, "os".into(), 1, 2).unwrap_err().to_string(),
        "dispatch queue error: vsock connection has invalid file descriptor (-1)"
    );
    assert_eq!(
        VsockConnection::from_duplicate(3, -1, "os".into(), 1, 2).unwrap_err().to_string(),
        "I/O error: os"
    );
}

#[test]
fn vsock_requests() {
    assert_eq!(get_first_vsock_device(2).unwrap(), 0);
    assert_eq!(
        get_first_vsock_device(0).unwrap_err().to_string(),
        "invalid device configuration: VM has no socket devices configured"
    );
    let c = VsockConnection::from_duplicate(3, 4, String::new(), 1, 2);
    assert_eq!(connect_vsock(Some(ConnectAnswer::Connection(c))).unwrap().fd(), 4);
    let text = |a| connect_vsock(a).unwrap_err().to_string();
    assert_eq!(text(Some(ConnectAnswer::Error(Error::Timeout))), "operation timed out");
    assert_eq!(
        text(Some(ConnectAnswer::Nothing)),
        "dispatch queue error: vsock connectToPort returned nil connection without error"
    );
    assert_eq!(text(None), "dispatch queue error: vsock connect channel closed");
    assert!(listen_vsock(Some(Ok(()))).is_ok());
    assert_eq!(
        listen_vsock(None).unwrap_err().to_string(),
        "dispatch queue error: vsock listen setup channel closed"
    );
    assert!(listener_should_accept(true, true, Offer::Taken));
    assert!(!listener_should_accept(false, true, Offer::Taken));
    assert!(!listener_should_accept(true, false, Offer::Taken));
    assert!(!listener_should_accept(true, true, Offer::Full));
    assert!(!listener_should_accept(true, true, Offer::Closed));
}

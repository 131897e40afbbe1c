//! Bootloader and device specifications of the command line.
use vstd::prelude::*;

use super::options::{given, lookup, options_of, parse_opts, Entry, Options};
use crate::config::bootloader::{
    Bootloader, BootloaderView, EfiBootloader, LinuxBootloader, MacOsBootloader,
};
use crate::config::device::audio::VirtioSound;
use crate::config::device::fs::{
    dirs_view, Rosetta, RosettaView, SharedDir, SharedDirView, VirtioFs, VirtioFsView,
};
use crate::config::device::gpu::{MacGraphics, VirtioGpu};
use crate::config::device::input::VirtioInput;
use crate::config::device::network::{
    default_vmnet_config, mac_of, MacAddress, NetAttachment, NetAttachmentView, VirtioNet,
    VirtioNetView, VmnetConfig, VmnetConfigView, VmnetMode,
};
use crate::config::device::serial::{SerialAttachment, SerialAttachmentView, VirtioSerial};
use crate::config::device::storage::{
    DiskBackend, DiskCachingMode, DiskSyncMode, DiskView, Nbd, NbdView, Nvme, UsbMassStorage,
    VirtioBlk, VirtioBlkView,
};
use crate::config::device::vsock::{VirtioVsock, VirtioVsockView};
use crate::config::device::{Device, DeviceView};
use crate::number::{parse_signed, parse_unsigned, read_i32, read_u32, read_unsigned};
use crate::text::{join2, same_text, split_once, split_once_text, strip_prefix, strip_prefix_text};
use crate::time::Duration;

verus! {

/// A parsed value, or the message that says why there is none.
pub type Parsed<T> = Result<T, Seq<char>>;

/// The outcome of a parse, over views.
pub open spec fn parsed<T: View>(r: Result<T, String>) -> Parsed<T::V> {
    match r {
        Ok(v) => Ok(v@),
        Err(m) => Err(m@),
    }
}

/// The kind of a specification, and its options: what stands before and after
/// the first comma.
pub open spec fn kind_and_rest(spec_text: Seq<char>) -> (Seq<char>, Seq<char>) {
    match split_once(spec_text, ',') {
        Some((kind, rest)) => (kind, rest),
        None => (spec_text, Seq::empty()),
    }
}

fn split_kind(spec_text: &str) -> (r: (String, String))
    ensures
        (r.0@, r.1@) == kind_and_rest(spec_text@),
{
    match split_once_text(spec_text, ',') {
        Some((kind, rest)) => (kind, rest),
        None => (spec_text.to_owned(), String::new()),
    }
}

/// The bootloader that a specification of this kind with these options asks
/// for.
pub open spec fn bootloader_from(kind: Seq<char>, opts: Seq<Entry>) -> Parsed<BootloaderView> {
    if kind == "linux"@ {
        match lookup(opts, "kernel"@) {
            Some(kernel) => Ok(
                BootloaderView::Linux {
                    kernel_path: kernel,
                    initrd_path: lookup(opts, "initrd"@),
                    command_line: match lookup(opts, "cmdline"@) {
                        Some(text) => text,
                        None => Seq::empty(),
                    },
                },
            ),
            None => Err("linux bootloader requires 'kernel' option"@),
        }
    } else if kind == "efi"@ {
        match lookup(opts, "variable-store"@) {
            Some(store) => Ok(
                BootloaderView::Efi {
                    variable_store_path: store,
                    create_variable_store: given(opts, "create"@),
                },
            ),
            None => Err("efi bootloader requires 'variable-store' option"@),
        }
    } else if kind == "macos"@ {
        if !given(opts, "machineIdentifierPath"@) {
            Err("macos bootloader requires 'machineIdentifierPath'"@)
        } else if !given(opts, "hardwareModelPath"@) {
            Err("macos bootloader requires 'hardwareModelPath'"@)
        } else if !given(opts, "auxImagePath"@) {
            Err("macos bootloader requires 'auxImagePath'"@)
        } else {
            Ok(
                BootloaderView::MacOs {
                    machine_identifier_path: lookup(opts, "machineIdentifierPath"@)->0,
                    hardware_model_path: lookup(opts, "hardwareModelPath"@)->0,
                    aux_image_path: lookup(opts, "auxImagePath"@)->0,
                },
            )
        }
    } else {
        Err("unknown bootloader type: "@ + kind)
    }
}

/// The bootloader that a specification asks for.
pub open spec fn bootloader_of(spec_text: Seq<char>) -> Parsed<BootloaderView> {
    let (kind, rest) = kind_and_rest(spec_text);
    bootloader_from(kind, options_of(rest))
}

/// Reads a bootloader specification:
/// `linux,kernel=<path>[,initrd=<path>][,cmdline=<str>]`,
/// `efi,variable-store=<path>[,create]` or
/// `macos,machineIdentifierPath=<path>,hardwareModelPath=<path>,auxImagePath=<path>`.
pub fn parse_bootloader(spec_text: &str) -> (r: Result<Bootloader, String>)
    ensures
        parsed(r) == bootloader_of(spec_text@),
{
    let (kind, rest) = split_kind(spec_text);
    let opts = parse_opts(rest.as_str());
    let kind = kind.as_str();
    if same_text(kind, "linux") {
        match opts.get("kernel") {
            Some(kernel_path) => Ok(
                Bootloader::Linux(
                    LinuxBootloader {
                        kernel_path,
                        initrd_path: opts.get("initrd"),
                        command_line: match opts.get("cmdline") {
                            Some(text) => text,
                            None => String::new(),
                        },
                    },
                ),
            ),
            None => Err("linux bootloader requires 'kernel' option".to_owned()),
        }
    } else if same_text(kind, "efi") {
        match opts.get("variable-store") {
            Some(variable_store_path) => Ok(
                Bootloader::Efi(
                    EfiBootloader {
                        variable_store_path,
                        create_variable_store: opts.contains_key("create"),
                    },
                ),
            ),
            None => Err("efi bootloader requires 'variable-store' option".to_owned()),
        }
    } else if same_text(kind, "macos") {
        let machine_identifier_path = match opts.get("machineIdentifierPath") {
            Some(path) => path,
            None => {
                return Err("macos bootloader requires 'machineIdentifierPath'".to_owned());
            },
        };
        let hardware_model_path = match opts.get("hardwareModelPath") {
            Some(path) => path,
            None => {
                return Err("macos bootloader requires 'hardwareModelPath'".to_owned());
            },
        };
        let aux_image_path = match opts.get("auxImagePath") {
            Some(path) => path,
            None => {
                return Err("macos bootloader requires 'auxImagePath'".to_owned());
            },
        };
        Ok(
            Bootloader::MacOs(
                MacOsBootloader { machine_identifier_path, hardware_model_path, aux_image_path },
            ),
        )
    } else {
        Err(join2("unknown bootloader type: ", kind))
    }
}

/// The number that an option gives, or `default` where it is missing or is no
/// number.
pub open spec fn number_or(value: Option<Seq<char>>, default: u32) -> u32 {
    match value {
        Some(s) => match parse_unsigned(s, 10, u32::MAX as nat) {
            Some(n) => n as u32,
            None => default,
        },
        None => default,
    }
}

fn get_number(opts: &Options, key: &str, default: u32) -> (r: u32)
    ensures
        r == number_or(lookup(opts@, key@), default),
{
    match opts.get(key) {
        Some(s) => match read_u32(s.as_str()) {
            Some(n) => n,
            None => default,
        },
        None => default,
    }
}

/// A Virtio block device from its options.
pub open spec fn blk_from(opts: Seq<Entry>) -> Parsed<DeviceView> {
    match lookup(opts, "path"@) {
        Some(path) => Ok(
            DeviceView::VirtioBlk(
                VirtioBlkView {
                    path,
                    read_only: given(opts, "readonly"@),
                    backend: DiskBackend::Image,
                    device_id: lookup(opts, "deviceId"@),
                    caching_mode: DiskCachingMode::Automatic,
                    sync_mode: DiskSyncMode::Full,
                },
            ),
        ),
        None => Err("virtio-blk requires 'path' option"@),
    }
}

fn parse_blk(opts: &Options) -> (r: Result<Device, String>)
    ensures
        parsed(r) == blk_from(opts@),
{
    match opts.get("path") {
        Some(path) => Ok(
            Device::VirtioBlk(
                VirtioBlk {
                    path,
                    read_only: opts.contains_key("readonly"),
                    backend: DiskBackend::default(),
                    device_id: opts.get("deviceId"),
                    caching_mode: DiskCachingMode::default(),
                    sync_mode: DiskSyncMode::default(),
                },
            ),
        ),
        None => Err("virtio-blk requires 'path' option".to_owned()),
    }
}

/// How an NBD client is asked to synchronise: fully, unless the option says
/// otherwise.
pub open spec fn sync_mode_of(value: Option<Seq<char>>) -> DiskSyncMode {
    match value {
        Some(s) => if s == "none"@ {
            DiskSyncMode::NoSync
        } else if s == "fsync"@ {
            DiskSyncMode::Fsync
        } else {
            DiskSyncMode::Full
        },
        None => DiskSyncMode::Full,
    }
}

/// A timeout in milliseconds; a value that is no number gives none.
pub open spec fn timeout_of(value: Option<Seq<char>>) -> Option<Duration> {
    match value {
        Some(s) => match parse_unsigned(s, 10, u64::MAX as nat) {
            Some(ms) => Some(Duration { nanos: (ms * 1_000_000) as u128 }),
            None => None,
        },
        None => None,
    }
}

/// A network block device from its options.
pub open spec fn nbd_from(opts: Seq<Entry>) -> Parsed<DeviceView> {
    match lookup(opts, "uri"@) {
        Some(uri) => Ok(
            DeviceView::Nbd(
                NbdView {
                    uri,
                    device_id: lookup(opts, "deviceId"@),
                    timeout: timeout_of(lookup(opts, "timeout"@)),
                    sync_mode: sync_mode_of(lookup(opts, "sync"@)),
                    read_only: given(opts, "readonly"@),
                },
            ),
        ),
        None => Err("nbd requires 'uri' option"@),
    }
}

fn parse_nbd(opts: &Options) -> (r: Result<Device, String>)
    ensures
        parsed(r) == nbd_from(opts@),
{
    let uri = match opts.get("uri") {
        Some(uri) => uri,
        None => {
            return Err("nbd requires 'uri' option".to_owned());
        },
    };
    let timeout = match opts.get("timeout") {
        Some(s) => match read_unsigned(s.as_str(), 10, u64::MAX) {
            Some(ms) => Some(Duration::from_millis(ms)),
            None => None,
        },
        None => None,
    };
    let sync_mode = match opts.get("sync") {
        Some(s) => if same_text(s.as_str(), "none") {
            DiskSyncMode::NoSync
        } else if same_text(s.as_str(), "fsync") {
            DiskSyncMode::Fsync
        } else {
            DiskSyncMode::Full
        },
        None => DiskSyncMode::Full,
    };
    Ok(
        Device::Nbd(
            Nbd {
                uri,
                device_id: opts.get("deviceId"),
                timeout,
                sync_mode,
                read_only: opts.contains_key("readonly"),
            },
        ),
    )
}

/// The `vmnet` mode that an option asks for: shared, unless it says otherwise.
pub open spec fn vmnet_mode_of(value: Option<Seq<char>>) -> VmnetMode {
    match value {
        Some(s) => if s == "host"@ {
            VmnetMode::Host
        } else if s == "bridged"@ {
            VmnetMode::Bridged
        } else {
            VmnetMode::Shared
        },
        None => VmnetMode::Shared,
    }
}

/// The attachment of a network device. NAT where nothing else is asked for;
/// of several requests the first one in this order counts: `nat`,
/// `unixSocketPath`, `fd`, `vmnet`.
pub open spec fn attachment_from(opts: Seq<Entry>) -> Parsed<NetAttachmentView> {
    if given(opts, "nat"@) || opts.len() == 0 {
        Ok(NetAttachmentView::Nat)
    } else if let Some(path) = lookup(opts, "unixSocketPath"@) {
        Ok(NetAttachmentView::UnixSocket { path })
    } else if let Some(fd) = lookup(opts, "fd"@) {
        match parse_signed(fd, i32::MIN as int, i32::MAX as int) {
            Some(n) => Ok(NetAttachmentView::FileDescriptor { fd: n as i32 }),
            None => Err("invalid fd value"@),
        }
    } else if given(opts, "vmnet"@) {
        Ok(
            NetAttachmentView::Vmnet(
                VmnetConfigView {
                    mode: vmnet_mode_of(lookup(opts, "mode"@)),
                    bridged_interface: lookup(opts, "bridgedInterface"@),
                    isolated: given(opts, "isolated"@),
                    allocate_mac: given(opts, "allocateMac"@),
                    ..default_vmnet_config()
                },
            ),
        )
    } else {
        Ok(NetAttachmentView::Nat)
    }
}

fn parse_attachment(opts: &Options) -> (r: Result<NetAttachment, String>)
    ensures
        parsed(r) == attachment_from(opts@),
{
    if opts.contains_key("nat") || opts.is_empty() {
        return Ok(NetAttachment::Nat);
    }
    if let Some(path) = opts.get("unixSocketPath") {
        return Ok(NetAttachment::UnixSocket { path });
    }
    if let Some(fd) = opts.get("fd") {
        return match read_i32(fd.as_str()) {
            Some(n) => Ok(NetAttachment::FileDescriptor { fd: n }),
            None => Err("invalid fd value".to_owned()),
        };
    }
    if opts.contains_key("vmnet") {
        let mode = match opts.get("mode") {
            Some(s) => if same_text(s.as_str(), "host") {
                VmnetMode::Host
            } else if same_text(s.as_str(), "bridged") {
                VmnetMode::Bridged
            } else {
                VmnetMode::Shared
            },
            None => VmnetMode::Shared,
        };
        let defaults = VmnetConfig::default();
        return Ok(
            NetAttachment::Vmnet(
                VmnetConfig {
                    mode,
                    bridged_interface: opts.get("bridgedInterface"),
                    isolated: opts.contains_key("isolated"),
                    allocate_mac: opts.contains_key("allocateMac"),
                    start_address: defaults.start_address,
                    end_address: defaults.end_address,
                    subnet_mask: defaults.subnet_mask,
                },
            ),
        );
    }
    Ok(NetAttachment::Nat)
}

/// A Virtio network device from its options. A `mac` that is no address is
/// left out.
pub open spec fn net_from(opts: Seq<Entry>) -> Parsed<DeviceView> {
    match attachment_from(opts) {
        Ok(attachment) => Ok(
            DeviceView::VirtioNet(
                VirtioNetView {
                    attachment,
                    mac_address: match lookup(opts, "mac"@) {
                        Some(s) => mac_of(s),
                        None => None,
                    },
                },
            ),
        ),
        Err(m) => Err(m),
    }
}

fn parse_net(opts: &Options) -> (r: Result<Device, String>)
    ensures
        parsed(r) == net_from(opts@),
{
    match parse_attachment(opts) {
        Ok(attachment) => {
            let mac_address = match opts.get("mac") {
                Some(s) => MacAddress::parse(s.as_str()),
                None => None,
            };
            Ok(Device::VirtioNet(VirtioNet { attachment, mac_address }))
        },
        Err(m) => Err(m),
    }
}

/// A Virtio serial port from its options: standard input and output, unless
/// something else is asked for.
pub open spec fn serial_from(opts: Seq<Entry>) -> Parsed<DeviceView> {
    Ok(
        DeviceView::VirtioSerial(
            if given(opts, "stdio"@) {
                SerialAttachmentView::Stdio
            } else if given(opts, "pty"@) {
                SerialAttachmentView::Pty
            } else if let Some(path) = lookup(opts, "logFilePath"@) {
                SerialAttachmentView::File { path }
            } else {
                SerialAttachmentView::Stdio
            },
        ),
    )
}

fn parse_serial(opts: &Options) -> (r: Result<Device, String>)
    ensures
        parsed(r) == serial_from(opts@),
{
    let attachment = if opts.contains_key("stdio") {
        SerialAttachment::Stdio
    } else if opts.contains_key("pty") {
        SerialAttachment::Pty
    } else if let Some(path) = opts.get("logFilePath") {
        SerialAttachment::File { path }
    } else {
        SerialAttachment::Stdio
    };
    Ok(Device::VirtioSerial(VirtioSerial { attachment }))
}

/// A Virtio socket from its options.
pub open spec fn vsock_from(opts: Seq<Entry>) -> Parsed<DeviceView> {
    match lookup(opts, "port"@) {
        Some(s) => match parse_unsigned(s, 10, u32::MAX as nat) {
            Some(port) => Ok(
                DeviceView::VirtioVsock(
                    VirtioVsockView {
                        port: port as u32,
                        socket_url: lookup(opts, "socketURL"@),
                        listen: given(opts, "listen"@),
                    },
                ),
            ),
            None => Err("invalid port value"@),
        },
        None => Err("virtio-vsock requires 'port' option"@),
    }
}

fn parse_vsock(opts: &Options) -> (r: Result<Device, String>)
    ensures
        parsed(r) == vsock_from(opts@),
{
    match opts.get("port") {
        Some(s) => match read_u32(s.as_str()) {
            Some(port) => Ok(
                Device::VirtioVsock(
                    VirtioVsock {
                        port,
                        socket_url: opts.get("socketURL"),
                        listen: opts.contains_key("listen"),
                    },
                ),
            ),
            None => Err("invalid port value".to_owned()),
        },
        None => Err("virtio-vsock requires 'port' option".to_owned()),
    }
}

/// The directory that an option shares: `dir.<name>=<path>` for writing,
/// `rodir.<name>=<path>` for reading only.
pub open spec fn directory_of(entry: Entry) -> Option<SharedDirView> {
    if let Some(name) = strip_prefix(entry.0, "dir."@) {
        Some(SharedDirView { name, path: entry.1, read_only: false })
    } else if let Some(name) = strip_prefix(entry.0, "rodir."@) {
        Some(SharedDirView { name, path: entry.1, read_only: true })
    } else {
        None
    }
}

/// The directories that the options share, in the order of the options.
pub open spec fn directories_of(opts: Seq<Entry>) -> Seq<SharedDirView>
    decreases opts.len(),
{
    if opts.len() == 0 {
        Seq::empty()
    } else {
        match directory_of(opts.last()) {
            Some(dir) => directories_of(opts.drop_last()).push(dir),
            None => directories_of(opts.drop_last()),
        }
    }
}

/// A Virtio file system from its options.
pub open spec fn fs_from(opts: Seq<Entry>) -> Parsed<DeviceView> {
    match lookup(opts, "mountTag"@) {
        Some(mount_tag) => if !given(opts, "sharedDir"@) && directories_of(opts).len() == 0 {
            Err("virtio-fs requires 'sharedDir' or at least one 'dir.<name>=<path>'"@)
        } else {
            Ok(
                DeviceView::VirtioFs(
                    VirtioFsView {
                        mount_tag,
                        shared_dir: lookup(opts, "sharedDir"@),
                        directories: directories_of(opts),
                    },
                ),
            )
        },
        None => Err("virtio-fs requires 'mountTag' option"@),
    }
}

fn parse_directories(opts: &Options) -> (r: Vec<SharedDir>)
    ensures
        dirs_view(r@) == directories_of(opts@),
{
    let mut dirs: Vec<SharedDir> = Vec::new();
    let mut i: usize = 0;
    assert(opts@.take(0) =~= Seq::empty());
    assert(dirs_view(dirs@) =~= Seq::empty());
    while i < opts.len()
        invariant
            i <= opts@.len(),
            dirs_view(dirs@) == directories_of(opts@.take(i as int)),
        decreases opts@.len() - i,
    {
        proof {
            assert(opts@.take(i + 1).drop_last() =~= opts@.take(i as int));
            assert(opts@.take(i + 1).last() == opts@[i as int]);
        }
        let ghost before = dirs_view(dirs@);
        if let Some(name) = strip_prefix_text(opts.key(i), "dir.") {
            let dir = SharedDir { name, path: opts.value(i).to_owned(), read_only: false };
            dirs.push(dir);
            assert(dirs_view(dirs@) =~= before.push(dir@));
        } else if let Some(name) = strip_prefix_text(opts.key(i), "rodir.") {
            let dir = SharedDir { name, path: opts.value(i).to_owned(), read_only: true };
            dirs.push(dir);
            assert(dirs_view(dirs@) =~= before.push(dir@));
        }
        i += 1;
    }
    assert(opts@.take(opts@.len() as int) =~= opts@);
    dirs
}

fn parse_fs(opts: &Options) -> (r: Result<Device, String>)
    ensures
        parsed(r) == fs_from(opts@),
{
    match opts.get("mountTag") {
        Some(mount_tag) => {
            let directories = parse_directories(opts);
            let shared_dir = opts.get("sharedDir");
            assert(dirs_view(directories@).len() == directories@.len());
            if shared_dir.is_none() && directories.len() == 0 {
                return Err(
                    "virtio-fs requires 'sharedDir' or at least one 'dir.<name>=<path>'".to_owned(),
                );
            }
            Ok(Device::VirtioFs(VirtioFs { mount_tag, shared_dir, directories }))
        },
        None => Err("virtio-fs requires 'mountTag' option".to_owned()),
    }
}

/// The device that a specification of this kind with these options asks for.
pub open spec fn device_from(kind: Seq<char>, opts: Seq<Entry>) -> Parsed<DeviceView> {
    if kind == "virtio-blk"@ {
        blk_from(opts)
    } else if kind == "nvme"@ {
        match lookup(opts, "path"@) {
            Some(path) => Ok(
                DeviceView::Nvme(DiskView { path, read_only: given(opts, "readonly"@) }),
            ),
            None => Err("nvme requires 'path' option"@),
        }
    } else if kind == "usb-mass-storage"@ {
        match lookup(opts, "path"@) {
            Some(path) => Ok(
                DeviceView::UsbMassStorage(DiskView { path, read_only: given(opts, "readonly"@) }),
            ),
            None => Err("usb-mass-storage requires 'path' option"@),
        }
    } else if kind == "nbd"@ {
        nbd_from(opts)
    } else if kind == "virtio-net"@ {
        net_from(opts)
    } else if kind == "virtio-serial"@ {
        serial_from(opts)
    } else if kind == "virtio-vsock"@ {
        vsock_from(opts)
    } else if kind == "virtio-gpu"@ {
        Ok(
            DeviceView::VirtioGpu(
                VirtioGpu {
                    width: number_or(lookup(opts, "width"@), 800),
                    height: number_or(lookup(opts, "height"@), 600),
                },
            ),
        )
    } else if kind == "virtio-input"@ {
        Ok(
            DeviceView::VirtioInput(
                if given(opts, "pointing"@) {
                    VirtioInput::Pointing
                } else {
                    VirtioInput::Keyboard
                },
            ),
        )
    } else if kind == "virtio-fs"@ {
        fs_from(opts)
    } else if kind == "rosetta"@ {
        Ok(
            DeviceView::Rosetta(
                RosettaView {
                    mount_tag: match lookup(opts, "mountTag"@) {
                        Some(tag) => tag,
                        None => "rosetta"@,
                    },
                    install: given(opts, "install"@),
                    ignore_if_missing: given(opts, "ignoreIfMissing"@),
                },
            ),
        )
    } else if kind == "virtio-sound"@ {
        Ok(
            DeviceView::VirtioSound(
                VirtioSound { input: given(opts, "input"@), output: !given(opts, "no-output"@) },
            ),
        )
    } else if kind == "mac-graphics"@ {
        Ok(
            DeviceView::MacGraphics(
                MacGraphics {
                    width: number_or(lookup(opts, "width"@), 1920),
                    height: number_or(lookup(opts, "height"@), 1200),
                    pixels_per_inch: number_or(lookup(opts, "pixelsPerInch"@), 144),
                },
            ),
        )
    } else if kind == "usb-controller"@ {
        Ok(DeviceView::UsbController)
    } else if kind == "virtio-rng"@ {
        Ok(DeviceView::VirtioRng)
    } else if kind == "virtio-balloon"@ {
        Ok(DeviceView::VirtioBalloon)
    } else {
        Err("unknown device type: "@ + kind)
    }
}

/// The device that a specification asks for.
pub open spec fn device_of(spec_text: Seq<char>) -> Parsed<DeviceView> {
    let (kind, rest) = kind_and_rest(spec_text);
    device_from(kind, options_of(rest))
}

/// Reads a device specification, `<kind>[,<option>]...`, such as
/// `virtio-blk,path=/tmp/disk.img,readonly`.
pub fn parse_device(spec_text: &str) -> (r: Result<Device, String>)
    ensures
        parsed(r) == device_of(spec_text@),
{
    let (kind, rest) = split_kind(spec_text);
    let opts = parse_opts(rest.as_str());
    let kind = kind.as_str();
    if same_text(kind, "virtio-blk") {
        parse_blk(&opts)
    } else if same_text(kind, "nvme") {
        match opts.get("path") {
            Some(path) => Ok(
                Device::Nvme(Nvme { path, read_only: opts.contains_key("readonly") }),
            ),
            None => Err("nvme requires 'path' option".to_owned()),
        }
    } else if same_text(kind, "usb-mass-storage") {
        match opts.get("path") {
            Some(path) => Ok(
                Device::UsbMassStorage(
                    UsbMassStorage { path, read_only: opts.contains_key("readonly") },
                ),
            ),
            None => Err("usb-mass-storage requires 'path' option".to_owned()),
        }
    } else if same_text(kind, "nbd") {
        parse_nbd(&opts)
    } else if same_text(kind, "virtio-net") {
        parse_net(&opts)
    } else if same_text(kind, "virtio-serial") {
        parse_serial(&opts)
    } else if same_text(kind, "virtio-vsock") {
        parse_vsock(&opts)
    } else if same_text(kind, "virtio-gpu") {
        Ok(
            Device::VirtioGpu(
                VirtioGpu {
                    width: get_number(&opts, "width", 800),
                    height: get_number(&opts, "height", 600),
                },
            ),
        )
    } else if same_text(kind, "virtio-input") {
        if opts.contains_key("pointing") {
            Ok(Device::VirtioInput(VirtioInput::Pointing))
        } else {
            Ok(Device::VirtioInput(VirtioInput::Keyboard))
        }
    } else if same_text(kind, "virtio-fs") {
        parse_fs(&opts)
    } else if same_text(kind, "rosetta") {
        let mount_tag = match opts.get("mountTag") {
            Some(tag) => tag,
            None => "rosetta".to_owned(),
        };
        Ok(
            Device::Rosetta(
                Rosetta {
                    mount_tag,
                    install: opts.contains_key("install"),
                    ignore_if_missing: opts.contains_key("ignoreIfMissing"),
                },
            ),
        )
    } else if same_text(kind, "virtio-sound") {
        Ok(
            Device::VirtioSound(
                VirtioSound {
                    input: opts.contains_key("input"),
                    output: !opts.contains_key("no-output"),
                },
            ),
        )
    } else if same_text(kind, "mac-graphics") {
        Ok(
            Device::MacGraphics(
                MacGraphics {
                    width: get_number(&opts, "width", 1920),
                    height: get_number(&opts, "height", 1200),
                    pixels_per_inch: get_number(&opts, "pixelsPerInch", 144),
                },
            ),
        )
    } else if same_text(kind, "usb-controller") {
        Ok(Device::UsbController)
    } else if same_text(kind, "virtio-rng") {
        Ok(Device::VirtioRng)
    } else if same_text(kind, "virtio-balloon") {
        Ok(Device::VirtioBalloon)
    } else {
        Err(join2("unknown device type: ", kind))
    }
}

} // verus!

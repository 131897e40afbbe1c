//! What is built for each device, and where it goes.
use vstd::prelude::*;

use crate::config::device::audio::VirtioSound;
use crate::config::device::fs::{
    clone_dirs, dirs_view, Rosetta, RosettaView, SharedDir, SharedDirView, VirtioFs, VirtioFsView,
};
use crate::config::device::input::VirtioInput;
use crate::config::device::network::{
    mac_text, opt_mac, MacAddress, NetAttachment, NetAttachmentView, VirtioNet, VirtioNetView,
};
use crate::config::device::storage::{DiskSyncMode, Nbd, NbdView};
use crate::config::device::{devices_view, Device, DeviceView};
use crate::error::{outcome, result_view, Error, ErrorView};
use crate::sys::block_device::{
    block_device_id_error, is_block_device_id, law_block_device_identifiers,
    validate_block_device_id,
};
use crate::text::{join2, opt_text};
use crate::time::Duration;

verus! {

/// The lists of devices that a configuration of the framework holds.
#[derive(Debug, Clone, Copy, PartialEq, Eq, Structural)]
pub enum DeviceClass {
    Storage,
    Network,
    Serial,
    Socket,
    Entropy,
    Balloon,
    Graphics,
    Keyboard,
    Pointing,
    DirectorySharing,
    Audio,
    UsbController,
}

/// The list that a device belongs to.
pub open spec fn class_of(device: DeviceView) -> DeviceClass {
    match device {
        DeviceView::VirtioBlk(_) | DeviceView::Nvme(_) | DeviceView::UsbMassStorage(_)
        | DeviceView::Nbd(_) => DeviceClass::Storage,
        DeviceView::VirtioNet(_) => DeviceClass::Network,
        DeviceView::VirtioSerial(_) => DeviceClass::Serial,
        DeviceView::VirtioVsock(_) => DeviceClass::Socket,
        DeviceView::VirtioGpu(_) | DeviceView::MacGraphics(_) => DeviceClass::Graphics,
        DeviceView::VirtioInput(VirtioInput::Keyboard) => DeviceClass::Keyboard,
        DeviceView::VirtioInput(VirtioInput::Pointing) => DeviceClass::Pointing,
        DeviceView::VirtioFs(_) | DeviceView::Rosetta(_) => DeviceClass::DirectorySharing,
        DeviceView::VirtioSound(_) => DeviceClass::Audio,
        DeviceView::VirtioRng => DeviceClass::Entropy,
        DeviceView::VirtioBalloon => DeviceClass::Balloon,
        DeviceView::UsbController => DeviceClass::UsbController,
    }
}

/// The list that a device belongs to.
pub fn device_class(device: &Device) -> (r: DeviceClass)
    ensures
        r == class_of(device@),
{
    match device {
        Device::VirtioBlk(_) => DeviceClass::Storage,
        Device::Nvme(_) => DeviceClass::Storage,
        Device::UsbMassStorage(_) => DeviceClass::Storage,
        Device::Nbd(_) => DeviceClass::Storage,
        Device::VirtioNet(_) => DeviceClass::Network,
        Device::VirtioSerial(_) => DeviceClass::Serial,
        Device::VirtioVsock(_) => DeviceClass::Socket,
        Device::VirtioGpu(_) => DeviceClass::Graphics,
        Device::MacGraphics(_) => DeviceClass::Graphics,
        Device::VirtioInput(input) => match input {
            VirtioInput::Keyboard => DeviceClass::Keyboard,
            VirtioInput::Pointing => DeviceClass::Pointing,
        },
        Device::VirtioFs(_) => DeviceClass::DirectorySharing,
        Device::Rosetta(_) => DeviceClass::DirectorySharing,
        Device::VirtioSound(_) => DeviceClass::Audio,
        Device::VirtioRng => DeviceClass::Entropy,
        Device::VirtioBalloon => DeviceClass::Balloon,
        Device::UsbController => DeviceClass::UsbController,
    }
}

/// The positions of the devices of one class, in order.
pub open spec fn positions_of(devices: Seq<DeviceView>, class: DeviceClass) -> Seq<int>
    decreases devices.len(),
{
    if devices.len() == 0 {
        Seq::empty()
    } else if class_of(devices.last()) == class {
        positions_of(devices.drop_last(), class).push(devices.len() - 1)
    } else {
        positions_of(devices.drop_last(), class)
    }
}

/// The positions as numbers.
pub open spec fn as_ints(positions: Seq<usize>) -> Seq<int> {
    positions.map_values(|i: usize| i as int)
}

/// The positions of the devices that belong to one list, in order.
pub fn devices_of_class(devices: &Vec<Device>, class: DeviceClass) -> (r: Vec<usize>)
    ensures
        as_ints(r@) == positions_of(devices_view(devices@), class),
{
    let ghost all = devices_view(devices@);
    let mut r: Vec<usize> = Vec::new();
    let mut i: usize = 0;
    assert(all.take(0) =~= Seq::empty());
    assert(as_ints(r@) =~= Seq::empty());
    while i < devices.len()
        invariant
            i <= devices@.len(),
            all == devices_view(devices@),
            as_ints(r@) == positions_of(all.take(i as int), class),
        decreases devices@.len() - i,
    {
        let ghost before = as_ints(r@);
        proof {
            assert(all.take(i + 1).drop_last() =~= all.take(i as int));
            assert(all.take(i + 1).last() == devices@[i as int]@);
        }
        if device_class(&devices[i]) == class {
            r.push(i);
            assert(as_ints(r@) =~= before.push(i as int));
        }
        i += 1;
    }
    assert(all.take(devices@.len() as int) =~= all);
    r
}

/// Every device stands in the list of its class and in no other, and within a
/// list the devices keep their order.
pub proof fn law_devices_are_partitioned(devices: Seq<DeviceView>, class: DeviceClass)
    ensures
        forall|i: int|
            positions_of(devices, class).contains(i) <==> 0 <= i < devices.len() && class_of(
                #[trigger] devices[i],
            ) == class,
        forall|a: int, b: int|
            0 <= a < b < positions_of(devices, class).len() ==> positions_of(devices, class)[a]
                < positions_of(devices, class)[b],
    decreases devices.len(),
{
    let p = positions_of(devices, class);
    if devices.len() > 0 {
        let before = devices.drop_last();
        let q = positions_of(before, class);
        law_devices_are_partitioned(before, class);
        assert forall|i: int| p.contains(i) <==> 0 <= i < devices.len() && class_of(
            #[trigger] devices[i],
        ) == class by {
            if 0 <= i < before.len() {
                assert(before[i] == devices[i]);
            }
            if q.contains(i) {
                let k = q.index_of(i);
                assert(q[k] == i);
                assert(p[k] == i);
            }
            if p.contains(i) {
                let k = p.index_of(i);
                assert(p[k] == i);
                if k < q.len() {
                    assert(q[k] == i);
                    assert(before[i] == devices[i]);
                }
            }
            if i == devices.len() - 1 && class_of(devices[i]) == class {
                assert(p[p.len() - 1] == i);
            }
        }
        assert forall|a: int, b: int| 0 <= a < b < p.len() implies p[a] < p[b] by {
            assert(q.contains(q[a]));
            assert(q[a] == p[a]);
            if b < q.len() {
                assert(q[b] == p[b]);
            } else {
                assert(0 <= q[a] < before.len() && class_of(before[q[a]]) == class);
            }
        }
    }
}

/// A kind of attachment that the framework may refuse to create.
#[derive(Debug, Clone, Copy, PartialEq, Eq, Structural)]
pub enum AttachmentKind {
    Nvme,
    UsbMassStorage,
    Nbd,
    SerialFile,
}

impl AttachmentKind {
    /// How error messages name the attachment.
    pub open spec fn label(self) -> Seq<char> {
        match self {
            AttachmentKind::Nvme => "nvme attachment: "@,
            AttachmentKind::UsbMassStorage => "usb-mass-storage attachment: "@,
            AttachmentKind::Nbd => "nbd attachment: "@,
            AttachmentKind::SerialFile => "serial file attachment: "@,
        }
    }
}

/// The error for an attachment that the framework refused, with its reason.
pub fn attachment_error(kind: AttachmentKind, reason: &str) -> (r: Error)
    ensures
        r@ == ErrorView::InvalidDevice(kind.label() + reason@),
{
    Error::InvalidDevice(
        match kind {
            AttachmentKind::Nvme => join2("nvme attachment: ", reason),
            AttachmentKind::UsbMassStorage => join2("usb-mass-storage attachment: ", reason),
            AttachmentKind::Nbd => join2("nbd attachment: ", reason),
            AttachmentKind::SerialFile => join2("serial file attachment: ", reason),
        },
    )
}

/// How a network block device is synchronised: the client has no mode of its
/// own for `fsync`, which is done in full.
pub fn nbd_sync(mode: DiskSyncMode) -> (full: bool)
    ensures
        full == (mode != DiskSyncMode::NoSync),
{
    match mode {
        DiskSyncMode::Full => true,
        DiskSyncMode::Fsync => true,
        DiskSyncMode::NoSync => false,
    }
}

/// The nanoseconds of an optional timeout; zero for none.
pub open spec fn timeout_nanos(timeout: Option<Duration>) -> u128 {
    match timeout {
        Some(d) => d.nanos,
        None => 0,
    }
}

/// A timeout in milliseconds is a million times as many nanoseconds, and none
/// leaves the choice to the framework.
pub proof fn law_timeouts_in_nanoseconds(ms: u64)
    ensures
        timeout_nanos(Some(Duration { nanos: (ms * 1_000_000) as u128 })) == 1000 * (1000 * ms),
        timeout_nanos(None) == 0,
{
}

/// The nanoseconds that a network block device waits for its server; zero
/// leaves that to the framework.
pub fn nbd_timeout_nanos(nbd: &Nbd) -> (r: u128)
    ensures
        r == timeout_nanos(nbd@.timeout),
{
    match &nbd.timeout {
        Some(d) => d.nanos,
        None => 0,
    }
}

/// How building a network block device ends: `url_is_valid` says whether the
/// framework took the URI, and `attached` whether it created the attachment.
pub open spec fn nbd_outcome(
    nbd: NbdView,
    url_is_valid: bool,
    attached: Result<(), Seq<char>>,
) -> Result<Option<Seq<char>>, ErrorView> {
    if !url_is_valid {
        Err(ErrorView::InvalidDevice("invalid NBD URI: "@ + nbd.uri))
    } else {
        match attached {
            Err(reason) => Err(ErrorView::InvalidDevice("nbd attachment: "@ + reason)),
            Ok(_) => match nbd.device_id {
                Some(id) => if is_block_device_id(id) {
                    Ok(Some(id))
                } else {
                    Err(block_device_id_error(id))
                },
                None => Ok(None),
            },
        }
    }
}

/// The text of an answer without a value.
pub open spec fn unit_answer(answer: Result<(), String>) -> Result<(), Seq<char>> {
    match answer {
        Ok(_) => Ok(()),
        Err(e) => Err(e@),
    }
}

/// An outcome that may carry a text.
pub open spec fn opt_text_outcome(r: Result<Option<String>, Error>) -> Result<
    Option<Seq<char>>,
    ErrorView,
> {
    match r {
        Ok(o) => Ok(opt_text(o)),
        Err(e) => Err(e@),
    }
}

/// The identifier to give a network block device, or why there is no device.
pub fn build_nbd(nbd: &Nbd, url_is_valid: bool, attached: Result<(), String>) -> (r: Result<
    Option<String>,
    Error,
>)
    ensures
        opt_text_outcome(r) == nbd_outcome(nbd@, url_is_valid, unit_answer(attached)),
{
    if !url_is_valid {
        return Err(Error::InvalidDevice(join2("invalid NBD URI: ", nbd.uri.as_str())));
    }
    match attached {
        Err(reason) => Err(attachment_error(AttachmentKind::Nbd, reason.as_str())),
        Ok(_) => match &nbd.device_id {
            Some(id) => match validate_block_device_id(id.as_str()) {
                Ok(_) => Ok(Some(id.as_str().to_owned())),
                Err(e) => Err(e),
            },
            None => Ok(None),
        },
    }
}

/// The MAC address of a network device. A `vmnet` device that asks for an
/// assigned address has the one that `vmnet` assigned; every other has the
/// configured one, and where there is none the framework makes one up.
pub open spec fn mac_for(net: VirtioNetView, assigned: Option<Seq<u8>>) -> Option<Seq<u8>> {
    match net.attachment {
        NetAttachmentView::Vmnet(cfg) => if cfg.allocate_mac && assigned is Some {
            assigned
        } else {
            net.mac_address
        },
        _ => net.mac_address,
    }
}

/// The text of the MAC address that a network device is given; none leaves
/// the choice to the framework.
pub fn net_mac_text(net: &VirtioNet, assigned: &Option<MacAddress>) -> (r: Option<String>)
    ensures
        opt_text(r) == match mac_for(net@, opt_mac(*assigned)) {
            Some(m) => Some(mac_text(m)),
            None => None,
        },
{
    if let NetAttachment::Vmnet(cfg) = &net.attachment {
        if cfg.allocate_mac {
            if let Some(m) = assigned {
                return Some(m.to_string());
            }
        }
    }
    match &net.mac_address {
        Some(m) => Some(m.to_string()),
        None => None,
    }
}

/// Whether the packets of a network device cross the packet proxy.
pub open spec fn needs_proxy(net: VirtioNetView) -> bool {
    net.attachment is Vmnet
}

/// The devices of a configuration whose packets cross the packet proxy, in
/// order: one entry of `network_usage` for each.
pub open spec fn proxied_positions(devices: Seq<DeviceView>) -> Seq<int>
    decreases devices.len(),
{
    if devices.len() == 0 {
        Seq::empty()
    } else {
        match devices.last() {
            DeviceView::VirtioNet(net) => if needs_proxy(net) {
                proxied_positions(devices.drop_last()).push(devices.len() - 1)
            } else {
                proxied_positions(devices.drop_last())
            },
            _ => proxied_positions(devices.drop_last()),
        }
    }
}

/// The positions of the devices whose packets cross the packet proxy.
pub fn proxied_devices(devices: &Vec<Device>) -> (r: Vec<usize>)
    ensures
        as_ints(r@) == proxied_positions(devices_view(devices@)),
{
    let ghost all = devices_view(devices@);
    let mut r: Vec<usize> = Vec::new();
    let mut i: usize = 0;
    assert(all.take(0) =~= Seq::empty());
    assert(as_ints(r@) =~= Seq::empty());
    while i < devices.len()
        invariant
            i <= devices@.len(),
            all == devices_view(devices@),
            as_ints(r@) == proxied_positions(all.take(i as int)),
        decreases devices@.len() - i,
    {
        let ghost before = as_ints(r@);
        proof {
            assert(all.take(i + 1).drop_last() =~= all.take(i as int));
            assert(all.take(i + 1).last() == devices@[i as int]@);
        }
        let proxied = match &devices[i] {
            Device::VirtioNet(net) => match &net.attachment {
                NetAttachment::Vmnet(_) => true,
                _ => false,
            },
            _ => false,
        };
        if proxied {
            r.push(i);
            assert(as_ints(r@) =~= before.push(i as int));
        }
        i += 1;
    }
    assert(all.take(devices@.len() as int) =~= all);
    r
}

/// NAT, socket and descriptor attachments have no proxy; every `vmnet`
/// attachment has one.
pub proof fn law_only_vmnet_devices_are_proxied(devices: Seq<DeviceView>, i: int)
    ensures
        proxied_positions(devices).contains(i) <==> 0 <= i < devices.len() && (
        devices[i] matches DeviceView::VirtioNet(net) && net.attachment is Vmnet),
    decreases devices.len(),
{
    let p = proxied_positions(devices);
    if devices.len() > 0 {
        let before = devices.drop_last();
        let q = proxied_positions(before);
        law_only_vmnet_devices_are_proxied(before, i);
        if q.contains(i) {
            let k = q.index_of(i);
            assert(p[k] == i);
        }
        if p.contains(i) {
            let k = p.index_of(i);
            if k < q.len() {
                assert(q[k] == i);
            }
        }
        if p.len() > q.len() {
            assert(p[p.len() - 1] == devices.len() - 1);
        }
    }
}

/// The terminal flags in raw mode: the translation of carriage returns, line
/// buffering and echo are off, every other flag is as it was.
pub fn raw_mode(iflag: u64, lflag: u64, icrnl: u64, icanon: u64, echo: u64) -> (r: (u64, u64))
    ensures
        r.0 & icrnl == 0,
        r.0 & !icrnl == iflag & !icrnl,
        r.1 & icanon == 0,
        r.1 & echo == 0,
        r.1 & !(icanon | echo) == lflag & !(icanon | echo),
{
    let mask: u64 = icanon | echo;
    let i: u64 = iflag & !icrnl;
    let l: u64 = lflag & !mask;
    assert(i & icrnl == 0 && i & !icrnl == iflag & !icrnl) by (bit_vector)
        requires
            i == iflag & !icrnl,
    ;
    assert(l & icanon == 0 && l & echo == 0 && l & !(icanon | echo) == lflag & !(icanon | echo))
        by (bit_vector)
        requires
            mask == icanon | echo,
            l == lflag & !mask,
    ;
    (i, l)
}

/// The path of a pseudo-terminal: its own name, else that of the terminal,
/// else a placeholder.
pub fn pty_path(ptsname: Option<String>, ttyname: Option<String>) -> (r: String)
    ensures
        r@ == match opt_text(ptsname) {
            Some(name) => name,
            None => match opt_text(ttyname) {
                Some(name) => name,
                None => "<unknown>"@,
            },
        },
{
    match ptsname {
        Some(name) => name,
        None => match ttyname {
            Some(name) => name,
            None => "<unknown>".to_owned(),
        },
    }
}

/// A stream of a sound device.
#[derive(Debug, Clone, Copy, PartialEq, Eq, Structural)]
pub enum SoundStream {
    /// Played by the host.
    Output,
    /// Recorded by the host.
    Input,
}

/// The streams of a sound device: output before input.
pub open spec fn streams_of(sound: VirtioSound) -> Seq<SoundStream> {
    (if sound.output {
        seq![SoundStream::Output]
    } else {
        Seq::empty()
    }) + (if sound.input {
        seq![SoundStream::Input]
    } else {
        Seq::empty()
    })
}

/// A sound device has each stream once where it was asked for, and not at all
/// otherwise.
pub proof fn law_sound_streams(sound: VirtioSound)
    ensures
        streams_of(sound).contains(SoundStream::Output) <==> sound.output,
        streams_of(sound).contains(SoundStream::Input) <==> sound.input,
        streams_of(sound).no_duplicates(),
        sound.output && sound.input ==> streams_of(sound)[0] == SoundStream::Output,
{
    let s = streams_of(sound);
    if sound.output {
        assert(s[0] == SoundStream::Output);
    }
    if sound.input {
        assert(s[s.len() - 1] == SoundStream::Input);
    }
}

/// The streams of a sound device: output before input.
pub fn sound_streams(sound: &VirtioSound) -> (r: Vec<SoundStream>)
    ensures
        r@ == streams_of(*sound),
{
    let mut r: Vec<SoundStream> = Vec::new();
    if sound.output {
        r.push(SoundStream::Output);
    }
    if sound.input {
        r.push(SoundStream::Input);
    }
    r
}

/// What a file system device shares.
#[derive(Debug)]
pub enum FsShare {
    /// Several directories under names of their own.
    Multiple(Vec<SharedDir>),
    /// One directory, for reading and writing.
    Single(String),
}

/// An [`FsShare`] over sequences.
#[verifier::ext_equal]
pub enum FsShareView {
    Multiple(Seq<SharedDirView>),
    Single(Seq<char>),
}

impl View for FsShare {
    type V = FsShareView;

    open spec fn view(&self) -> FsShareView {
        match *self {
            FsShare::Multiple(dirs) => FsShareView::Multiple(dirs_view(dirs@)),
            FsShare::Single(path) => FsShareView::Single(path@),
        }
    }
}

/// What a file system device shares: its named directories where it has any,
/// else its single directory.
pub open spec fn fs_share_of(fs: VirtioFsView) -> Result<FsShareView, ErrorView> {
    if fs.directories.len() > 0 {
        Ok(FsShareView::Multiple(fs.directories))
    } else {
        match fs.shared_dir {
            Some(path) => Ok(FsShareView::Single(path)),
            None => Err(
                ErrorView::InvalidDevice(
                    "virtio-fs requires either shared_dir or directories to be set"@,
                ),
            ),
        }
    }
}

/// What a file system device shares.
pub fn fs_share(fs: &VirtioFs) -> (r: Result<FsShare, Error>)
    ensures
        result_view(r) == fs_share_of(fs@),
{
    assert(fs@.directories.len() == fs.directories@.len());
    if fs.directories.len() > 0 {
        return Ok(FsShare::Multiple(clone_dirs(&fs.directories)));
    }
    match &fs.shared_dir {
        Some(path) => Ok(FsShare::Single(path.as_str().to_owned())),
        None => Err(
            Error::InvalidDevice(
                "virtio-fs requires either shared_dir or directories to be set".to_owned(),
            ),
        ),
    }
}

/// Whether Rosetta can be used on this host.
#[derive(Debug, Clone, Copy, PartialEq, Eq, Structural)]
pub enum RosettaAvailability {
    NotSupported,
    NotInstalled,
    Installed,
}

/// What is done before the Rosetta share is created.
#[derive(Debug, Clone, Copy, PartialEq, Eq, Structural)]
pub enum RosettaStep {
    /// Install Rosetta first.
    Install,
    /// Create the share.
    Share,
}

/// What is done for a Rosetta device: it is installed only where that was
/// asked for, and is an error where it is missing.
pub open spec fn rosetta_step_of(
    rosetta: RosettaView,
    availability: RosettaAvailability,
) -> Result<RosettaStep, ErrorView> {
    match availability {
        RosettaAvailability::NotSupported => Err(ErrorView::RosettaUnavailable),
        RosettaAvailability::NotInstalled => if rosetta.install {
            Ok(RosettaStep::Install)
        } else {
            Err(ErrorView::RosettaUnavailable)
        },
        RosettaAvailability::Installed => Ok(RosettaStep::Share),
    }
}

/// What is done for a Rosetta device.
pub fn rosetta_step(rosetta: &Rosetta, availability: RosettaAvailability) -> (r: Result<
    RosettaStep,
    Error,
>)
    ensures
        outcome(r) == rosetta_step_of(rosetta@, availability),
{
    match availability {
        RosettaAvailability::NotSupported => Err(Error::RosettaUnavailable),
        RosettaAvailability::NotInstalled => if rosetta.install {
            Ok(RosettaStep::Install)
        } else {
            Err(Error::RosettaUnavailable)
        },
        RosettaAvailability::Installed => Ok(RosettaStep::Share),
    }
}

/// How the installation of Rosetta ended: `reply` is what its completion
/// handler reported, or nothing where it went away without a word.
pub fn rosetta_install_outcome(reply: Option<Result<(), String>>) -> (r: Result<(), Error>)
    ensures
        outcome(r) == match reply {
            Some(Ok(_)) => Ok::<(), ErrorView>(()),
            Some(Err(reason)) => Err(
                ErrorView::InvalidDevice("rosetta installation failed: "@ + reason@),
            ),
            None => Err(ErrorView::DispatchError("rosetta install channel closed"@)),
        },
{
    match reply {
        Some(Ok(_)) => Ok(()),
        Some(Err(reason)) => Err(
            Error::InvalidDevice(join2("rosetta installation failed: ", reason.as_str())),
        ),
        None => Err(Error::DispatchError("rosetta install channel closed".to_owned())),
    }
}

/// The error for a Rosetta share that the framework refused.
pub fn rosetta_share_error(reason: &str) -> (r: Error)
    ensures
        r@ == ErrorView::InvalidDevice("failed to create rosetta directory share: "@ + reason@),
{
    Error::InvalidDevice(join2("failed to create rosetta directory share: ", reason))
}

/// The error where no pseudo-terminal could be opened.
pub fn openpty_error(os_error: &str) -> (r: Error)
    ensures
        r@ == ErrorView::InvalidDevice("openpty() failed: "@ + os_error@),
{
    Error::InvalidDevice(join2("openpty() failed: ", os_error))
}

/// Which devices stand in which list of the framework: disks of every kind
/// among the storage devices, a USB controller only among the controllers,
/// Rosetta beside the shared directories, and so on. A position is in a list
/// exactly where the device there is of a kind that belongs there.
pub proof fn law_lists_hold_their_devices(devices: Seq<DeviceView>, i: int)
    ensures
        ({
            let there = 0 <= i < devices.len();
            let d = devices[i];
            &&& positions_of(devices, DeviceClass::Storage).contains(i) <==> there && (
            d is VirtioBlk || d is Nvme || d is UsbMassStorage || d is Nbd)
            &&& positions_of(devices, DeviceClass::Network).contains(i) <==> there && d is VirtioNet
            &&& positions_of(devices, DeviceClass::Serial).contains(i) <==> there
                && d is VirtioSerial
            &&& positions_of(devices, DeviceClass::Socket).contains(i) <==> there
                && d is VirtioVsock
            &&& positions_of(devices, DeviceClass::Entropy).contains(i) <==> there && d is VirtioRng
            &&& positions_of(devices, DeviceClass::Balloon).contains(i) <==> there
                && d is VirtioBalloon
            &&& positions_of(devices, DeviceClass::Graphics).contains(i) <==> there && (
            d is VirtioGpu || d is MacGraphics)
            &&& positions_of(devices, DeviceClass::Keyboard).contains(i) <==> there && d
                == DeviceView::VirtioInput(VirtioInput::Keyboard)
            &&& positions_of(devices, DeviceClass::Pointing).contains(i) <==> there && d
                == DeviceView::VirtioInput(VirtioInput::Pointing)
            &&& positions_of(devices, DeviceClass::DirectorySharing).contains(i) <==> there && (
            d is VirtioFs || d is Rosetta)
            &&& positions_of(devices, DeviceClass::Audio).contains(i) <==> there && d is VirtioSound
            &&& positions_of(devices, DeviceClass::UsbController).contains(i) <==> there
                && d is UsbController
        }),
{
    law_devices_are_partitioned(devices, DeviceClass::Storage);
    law_devices_are_partitioned(devices, DeviceClass::Network);
    law_devices_are_partitioned(devices, DeviceClass::Serial);
    law_devices_are_partitioned(devices, DeviceClass::Socket);
    law_devices_are_partitioned(devices, DeviceClass::Entropy);
    law_devices_are_partitioned(devices, DeviceClass::Balloon);
    law_devices_are_partitioned(devices, DeviceClass::Graphics);
    law_devices_are_partitioned(devices, DeviceClass::Keyboard);
    law_devices_are_partitioned(devices, DeviceClass::Pointing);
    law_devices_are_partitioned(devices, DeviceClass::DirectorySharing);
    law_devices_are_partitioned(devices, DeviceClass::Audio);
    law_devices_are_partitioned(devices, DeviceClass::UsbController);
}

/// The devices with a proxy keep their order, and each has one proxy.
pub proof fn law_proxied_devices_keep_their_order(devices: Seq<DeviceView>, a: int, b: int)
    requires
        0 <= a < b < proxied_positions(devices).len(),
    ensures
        proxied_positions(devices)[a] < proxied_positions(devices)[b],
    decreases devices.len(),
{
    let p = proxied_positions(devices);
    if devices.len() > 0 {
        let before = devices.drop_last();
        let q = proxied_positions(before);
        if b < q.len() {
            law_proxied_devices_keep_their_order(before, a, b);
            assert(p[a] == q[a] && p[b] == q[b]);
        } else {
            law_only_vmnet_devices_are_proxied(before, q[a]);
            assert(q.contains(q[a]));
            assert(p[a] == q[a]);
        }
    }
}

/// The address that was configured is the one that a device has. It gives way
/// only to an address that `vmnet` assigned, and only where the device asked
/// for an assigned one.
pub proof fn law_configured_addresses_are_kept(net: VirtioNetView, assigned: Option<Seq<u8>>)
    ensures
        ({
            let asked = net.attachment matches NetAttachmentView::Vmnet(cfg) && cfg.allocate_mac;
            &&& !asked ==> mac_for(net, assigned) == net.mac_address
            &&& assigned is None ==> mac_for(net, assigned) == net.mac_address
            &&& asked && assigned is Some ==> mac_for(net, assigned) == assigned
        }),
{
}

/// A network block device is there exactly where the framework took its URI
/// and attached it and its identifier, if it has one, is at most twenty ASCII
/// characters; it has that identifier.
pub proof fn law_network_block_device(
    nbd: NbdView,
    url_is_valid: bool,
    attached: Result<(), Seq<char>>,
)
    ensures
        nbd_outcome(nbd, url_is_valid, attached) is Ok <==> url_is_valid && attached is Ok && (
        nbd.device_id matches Some(id) ==> id.len() <= 20 && forall|k: int|
            0 <= k < id.len() ==> (#[trigger] id[k]) as int <= 127),
        nbd_outcome(nbd, url_is_valid, attached) matches Ok(id) ==> id == nbd.device_id,
        nbd_outcome(nbd, url_is_valid, attached) matches Err(e) ==> e is InvalidDevice,
{
    if let Some(id) = nbd.device_id {
        law_block_device_identifiers(id);
    }
}

/// A file system shares all its named directories where it has any, else its
/// single directory, and is an error only where it has neither.
pub proof fn law_shared_directories(fs: VirtioFsView)
    ensures
        fs.directories.len() > 0 ==> fs_share_of(fs) == Ok::<FsShareView, ErrorView>(
            FsShareView::Multiple(fs.directories),
        ),
        fs.directories.len() == 0 ==> (fs.shared_dir matches Some(path) ==> fs_share_of(fs) == Ok::<
            FsShareView,
            ErrorView,
        >(FsShareView::Single(path))),
        fs_share_of(fs) is Err <==> fs.directories.len() == 0 && fs.shared_dir is None,
{
}

/// Rosetta is shared where it is installed, installed where that was asked for
/// and can be done, and unavailable otherwise.
pub proof fn law_rosetta_steps(rosetta: RosettaView, availability: RosettaAvailability)
    ensures
        rosetta_step_of(rosetta, availability) == Ok::<RosettaStep, ErrorView>(RosettaStep::Share)
            <==> availability == RosettaAvailability::Installed,
        rosetta_step_of(rosetta, availability) == Ok::<RosettaStep, ErrorView>(RosettaStep::Install)
            <==> availability == RosettaAvailability::NotInstalled && rosetta.install,
        rosetta_step_of(rosetta, availability) matches Err(e) ==> e is RosettaUnavailable,
{
}

} // verus!

//! Virtual devices.
pub mod audio;
pub mod fs;
pub mod gpu;
pub mod input;
pub mod network;
pub mod serial;
pub mod storage;
pub mod vsock;

use vstd::prelude::*;

use self::audio::VirtioSound;
use self::fs::{Rosetta, RosettaView, VirtioFs, VirtioFsView};
use self::gpu::{MacGraphics, VirtioGpu};
use self::input::VirtioInput;
use self::network::{VirtioNet, VirtioNetView};
use self::serial::{SerialAttachmentView, VirtioSerial};
use self::storage::{DiskView, Nbd, NbdView, Nvme, UsbMassStorage, VirtioBlk, VirtioBlkView};
use self::vsock::{VirtioVsock, VirtioVsockView};

verus! {

/// A device of a virtual machine.
#[derive(Debug)]
pub enum Device {
    VirtioBlk(VirtioBlk),
    Nvme(Nvme),
    UsbMassStorage(UsbMassStorage),
    Nbd(Nbd),
    VirtioNet(VirtioNet),
    VirtioSerial(VirtioSerial),
    VirtioVsock(VirtioVsock),
    VirtioGpu(VirtioGpu),
    MacGraphics(MacGraphics),
    VirtioInput(VirtioInput),
    VirtioFs(VirtioFs),
    Rosetta(Rosetta),
    VirtioSound(VirtioSound),
    VirtioRng,
    VirtioBalloon,
    UsbController,
}

impl Clone for Device {
    fn clone(&self) -> (r: Self)
        ensures
            r@ == self@,
    {
        match self {
            Device::VirtioBlk(d) => Device::VirtioBlk(d.clone()),
            Device::Nvme(d) => Device::Nvme(d.clone()),
            Device::UsbMassStorage(d) => Device::UsbMassStorage(d.clone()),
            Device::Nbd(d) => Device::Nbd(d.clone()),
            Device::VirtioNet(d) => Device::VirtioNet(d.clone()),
            Device::VirtioSerial(d) => Device::VirtioSerial(d.clone()),
            Device::VirtioVsock(d) => Device::VirtioVsock(d.clone()),
            Device::VirtioGpu(d) => Device::VirtioGpu(*d),
            Device::MacGraphics(d) => Device::MacGraphics(*d),
            Device::VirtioInput(d) => Device::VirtioInput(*d),
            Device::VirtioFs(d) => Device::VirtioFs(d.clone()),
            Device::Rosetta(d) => Device::Rosetta(d.clone()),
            Device::VirtioSound(d) => Device::VirtioSound(*d),
            Device::VirtioRng => Device::VirtioRng,
            Device::VirtioBalloon => Device::VirtioBalloon,
            Device::UsbController => Device::UsbController,
        }
    }
}

/// A [`Device`] over sequences.
#[verifier::ext_equal]
pub enum DeviceView {
    VirtioBlk(VirtioBlkView),
    Nvme(DiskView),
    UsbMassStorage(DiskView),
    Nbd(NbdView),
    VirtioNet(VirtioNetView),
    VirtioSerial(SerialAttachmentView),
    VirtioVsock(VirtioVsockView),
    VirtioGpu(VirtioGpu),
    MacGraphics(MacGraphics),
    VirtioInput(VirtioInput),
    VirtioFs(VirtioFsView),
    Rosetta(RosettaView),
    VirtioSound(VirtioSound),
    VirtioRng,
    VirtioBalloon,
    UsbController,
}

impl View for Device {
    type V = DeviceView;

    open spec fn view(&self) -> DeviceView {
        match *self {
            Device::VirtioBlk(d) => DeviceView::VirtioBlk(d@),
            Device::Nvme(d) => DeviceView::Nvme(d@),
            Device::UsbMassStorage(d) => DeviceView::UsbMassStorage(d@),
            Device::Nbd(d) => DeviceView::Nbd(d@),
            Device::VirtioNet(d) => DeviceView::VirtioNet(d@),
            Device::VirtioSerial(d) => DeviceView::VirtioSerial(d.attachment@),
            Device::VirtioVsock(d) => DeviceView::VirtioVsock(d@),
            Device::VirtioGpu(d) => DeviceView::VirtioGpu(d),
            Device::MacGraphics(d) => DeviceView::MacGraphics(d),
            Device::VirtioInput(d) => DeviceView::VirtioInput(d),
            Device::VirtioFs(d) => DeviceView::VirtioFs(d@),
            Device::Rosetta(d) => DeviceView::Rosetta(d@),
            Device::VirtioSound(d) => DeviceView::VirtioSound(d),
            Device::VirtioRng => DeviceView::VirtioRng,
            Device::VirtioBalloon => DeviceView::VirtioBalloon,
            Device::UsbController => DeviceView::UsbController,
        }
    }
}

/// The views of a list of devices.
pub open spec fn devices_view(devices: Seq<Device>) -> Seq<DeviceView> {
    devices.map_values(|d: Device| d@)
}

/// A copy of a list of devices.
pub fn clone_devices(devices: &Vec<Device>) -> (r: Vec<Device>)
    ensures
        devices_view(r@) == devices_view(devices@),
{
    let mut r: Vec<Device> = Vec::new();
    let mut i: usize = 0;
    while i < devices.len()
        invariant
            i <= devices@.len(),
            devices_view(r@) == devices_view(devices@).take(i as int),
        decreases devices@.len() - i,
    {
        let ghost before = devices_view(r@);
        r.push(devices[i].clone());
        assert(devices_view(r@) =~= before.push(devices@[i as int]@));
        i += 1;
        assert(devices_view(r@) =~= devices_view(devices@).take(i as int));
    }
    assert(devices_view(r@) =~= devices_view(devices@));
    r
}

} // verus!

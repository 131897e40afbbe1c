//! Block storage.
use vstd::prelude::*;

use crate::text::{clone_opt, opt_text};
use crate::time::Duration;

verus! {

/// What backs a disk.
#[derive(Debug, Clone, Copy, PartialEq, Eq, Structural)]
pub enum DiskBackend {
    Image,
    BlockDevice,
}

impl Default for DiskBackend {
    fn default() -> (r: Self)
        ensures
            r == DiskBackend::Image,
    {
        DiskBackend::Image
    }
}

/// How a disk image is cached by the host.
#[derive(Debug, Clone, Copy, PartialEq, Eq, Structural)]
pub enum DiskCachingMode {
    Automatic,
    Cached,
    Uncached,
}

impl Default for DiskCachingMode {
    fn default() -> (r: Self)
        ensures
            r == DiskCachingMode::Automatic,
    {
        DiskCachingMode::Automatic
    }
}

/// How writes are synchronised with permanent storage.
#[derive(Debug, Clone, Copy, PartialEq, Eq, Structural)]
pub enum DiskSyncMode {
    Full,
    Fsync,
    NoSync,
}

impl Default for DiskSyncMode {
    fn default() -> (r: Self)
        ensures
            r == DiskSyncMode::Full,
    {
        DiskSyncMode::Full
    }
}

/// A Virtio block device.
#[derive(Debug)]
pub struct VirtioBlk {
    pub path: String,
    pub read_only: bool,
    pub backend: DiskBackend,
    pub device_id: Option<String>,
    pub caching_mode: DiskCachingMode,
    pub sync_mode: DiskSyncMode,
}

impl Clone for VirtioBlk {
    fn clone(&self) -> (r: Self)
        ensures
            r@ == self@,
    {
        VirtioBlk {
            path: self.path.clone(),
            read_only: self.read_only,
            backend: self.backend,
            device_id: clone_opt(&self.device_id),
            caching_mode: self.caching_mode,
            sync_mode: self.sync_mode,
        }
    }
}

/// A [`VirtioBlk`] over sequences of characters.
pub struct VirtioBlkView {
    pub path: Seq<char>,
    pub read_only: bool,
    pub backend: DiskBackend,
    pub device_id: Option<Seq<char>>,
    pub caching_mode: DiskCachingMode,
    pub sync_mode: DiskSyncMode,
}

impl View for VirtioBlk {
    type V = VirtioBlkView;

    open spec fn view(&self) -> VirtioBlkView {
        VirtioBlkView {
            path: self.path@,
            read_only: self.read_only,
            backend: self.backend,
            device_id: opt_text(self.device_id),
            caching_mode: self.caching_mode,
            sync_mode: self.sync_mode,
        }
    }
}

impl Default for VirtioBlk {
    fn default() -> (r: Self)
        ensures
            r@ == (VirtioBlkView {
                path: Seq::empty(),
                read_only: false,
                backend: DiskBackend::Image,
                device_id: None,
                caching_mode: DiskCachingMode::Automatic,
                sync_mode: DiskSyncMode::Full,
            }),
    {
        VirtioBlk {
            path: String::new(),
            read_only: false,
            backend: DiskBackend::default(),
            device_id: None,
            caching_mode: DiskCachingMode::default(),
            sync_mode: DiskSyncMode::default(),
        }
    }
}

/// An NVMe controller with one disk image.
#[derive(Debug)]
pub struct Nvme {
    pub path: String,
    pub read_only: bool,
}

impl Clone for Nvme {
    fn clone(&self) -> (r: Self)
        ensures
            r@ == self@,
    {
        Nvme {
            path: self.path.clone(),
            read_only: self.read_only,
        }
    }
}

/// A USB mass storage device.
#[derive(Debug)]
pub struct UsbMassStorage {
    pub path: String,
    pub read_only: bool,
}

impl Clone for UsbMassStorage {
    fn clone(&self) -> (r: Self)
        ensures
            r@ == self@,
    {
        UsbMassStorage {
            path: self.path.clone(),
            read_only: self.read_only,
        }
    }
}

/// A disk image and whether the guest may write to it.
pub struct DiskView {
    pub path: Seq<char>,
    pub read_only: bool,
}

impl View for Nvme {
    type V = DiskView;

    open spec fn view(&self) -> DiskView {
        DiskView { path: self.path@, read_only: self.read_only }
    }
}

impl View for UsbMassStorage {
    type V = DiskView;

    open spec fn view(&self) -> DiskView {
        DiskView { path: self.path@, read_only: self.read_only }
    }
}

/// A network block device.
#[derive(Debug)]
pub struct Nbd {
    pub uri: String,
    pub device_id: Option<String>,
    pub timeout: Option<Duration>,
    pub sync_mode: DiskSyncMode,
    pub read_only: bool,
}

impl Clone for Nbd {
    fn clone(&self) -> (r: Self)
        ensures
            r@ == self@,
    {
        Nbd {
            uri: self.uri.clone(),
            device_id: clone_opt(&self.device_id),
            timeout: self.timeout,
            sync_mode: self.sync_mode,
            read_only: self.read_only,
        }
    }
}

/// An [`Nbd`] over sequences of characters.
pub struct NbdView {
    pub uri: Seq<char>,
    pub device_id: Option<Seq<char>>,
    pub timeout: Option<Duration>,
    pub sync_mode: DiskSyncMode,
    pub read_only: bool,
}

impl View for Nbd {
    type V = NbdView;

    open spec fn view(&self) -> NbdView {
        NbdView {
            uri: self.uri@,
            device_id: opt_text(self.device_id),
            timeout: self.timeout,
            sync_mode: self.sync_mode,
            read_only: self.read_only,
        }
    }
}

} // verus!

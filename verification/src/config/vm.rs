//! The configuration of a virtual machine and its builder.
use vstd::prelude::*;

use super::bootloader::{Bootloader, BootloaderView};
use super::device::{clone_devices, devices_view, Device, DeviceView};
use super::platform::{MachineIdentifier, Platform, PlatformView};
use crate::error::{Error, ErrorView, result_view};

verus! {

/// Complete, validated VM configuration. Immutable once built.
#[derive(Debug)]
pub struct VmConfig {
    cpus: u32,
    memory_mib: u64,
    bootloader: Bootloader,
    platform: Platform,
    devices: Vec<Device>,
    nested: bool,
    machine_identifier: Option<MachineIdentifier>,
}

impl Clone for VmConfig {
    fn clone(&self) -> (r: Self)
        ensures
            r@ == self@,
    {
        proof {
            use_type_invariant(self);
        }
        VmConfig {
            cpus: self.cpus,
            memory_mib: self.memory_mib,
            bootloader: self.bootloader.clone(),
            platform: self.platform.clone(),
            devices: clone_devices(&self.devices),
            nested: self.nested,
            machine_identifier: match &self.machine_identifier {
                Some(id) => Some(clone_bytes(id)),
                None => None,
            },
        }
    }
}

/// A [`VmConfig`] over sequences.
#[verifier::ext_equal]
pub struct VmConfigView {
    pub cpus: u32,
    pub memory_mib: u64,
    pub bootloader: BootloaderView,
    pub platform: PlatformView,
    pub devices: Seq<DeviceView>,
    pub nested: bool,
    pub machine_identifier: Option<Seq<u8>>,
}

/// A copy of a machine identifier.
pub fn clone_bytes(bytes: &Vec<u8>) -> (r: Vec<u8>)
    ensures
        r@ == bytes@,
{
    let r = bytes.clone();
    assert(r@ =~= bytes@);
    r
}

/// The bytes of an optional machine identifier.
pub open spec fn opt_bytes(id: Option<Vec<u8>>) -> Option<Seq<u8>> {
    match id {
        Some(bytes) => Some(bytes@),
        None => None,
    }
}

impl View for VmConfig {
    type V = VmConfigView;

    closed spec fn view(&self) -> VmConfigView {
        VmConfigView {
            cpus: self.cpus,
            memory_mib: self.memory_mib,
            bootloader: self.bootloader@,
            platform: self.platform@,
            devices: devices_view(self.devices@),
            nested: self.nested,
            machine_identifier: opt_bytes(self.machine_identifier),
        }
    }
}

impl VmConfigView {
    /// What every configuration satisfies, however it was made.
    pub open spec fn is_valid(self) -> bool {
        self.cpus >= 1 && self.memory_mib >= 128
    }
}

impl VmConfig {
    /// A configuration has passed the checks of the builder.
    #[verifier::type_invariant]
    spec fn validated(self) -> bool {
        self@.is_valid()
    }

    /// Starts an empty builder.
    pub fn builder() -> (r: VmBuilder)
        ensures
            r@ == empty_builder(),
    {
        let r = VmBuilder {
            cpus: None,
            memory_mib: None,
            bootloader: None,
            platform: Platform::default(),
            devices: Vec::new(),
            nested: false,
            machine_identifier: None,
        };
        assert(r@.devices =~= Seq::empty());
        r
    }

    /// Number of virtual CPUs, at least one.
    pub fn cpus(&self) -> (r: u32)
        ensures
            r == self@.cpus,
            self@.is_valid(),
    {
        proof {
            use_type_invariant(self);
        }
        self.cpus
    }

    /// Memory in MiB, at least 128.
    pub fn memory_mib(&self) -> (r: u64)
        ensures
            r == self@.memory_mib,
            self@.is_valid(),
    {
        proof {
            use_type_invariant(self);
        }
        self.memory_mib
    }

    /// The bootloader.
    pub fn bootloader(&self) -> (r: &Bootloader)
        ensures
            r@ == self@.bootloader,
    {
        &self.bootloader
    }

    /// The platform.
    pub fn platform(&self) -> (r: &Platform)
        ensures
            r@ == self@.platform,
    {
        &self.platform
    }

    /// The devices, in the order in which they were added.
    pub fn devices(&self) -> (r: &Vec<Device>)
        ensures
            devices_view(r@) == self@.devices,
    {
        &self.devices
    }

    /// Whether nested virtualization is asked for.
    pub fn nested(&self) -> (r: bool)
        ensures
            r == self@.nested,
    {
        self.nested
    }

    /// The machine identifier for the Generic platform, if present.
    pub fn machine_identifier(&self) -> (r: Option<&MachineIdentifier>)
        ensures
            match r {
                Some(bytes) => self@.machine_identifier == Some(bytes@),
                None => self@.machine_identifier is None,
            },
    {
        self.machine_identifier.as_ref()
    }

    /// A configuration from its stored parts, which pass the same checks as
    /// those of a builder.
    pub fn from_parts(
        cpus: u32,
        memory_mib: u64,
        bootloader: Bootloader,
        platform: Platform,
        devices: Vec<Device>,
        nested: bool,
        machine_identifier: Option<MachineIdentifier>,
    ) -> (r: Result<VmConfig, Error>)
        ensures
            result_view(r) == built(
                (VmBuilderView {
                    cpus: Some(cpus),
                    memory_mib: Some(memory_mib),
                    bootloader: Some(bootloader@),
                    platform: platform@,
                    devices: devices_view(devices@),
                    nested,
                    machine_identifier: opt_bytes(machine_identifier),
                }),
            ),
    {
        let parts = VmBuilder {
            cpus: Some(cpus),
            memory_mib: Some(memory_mib),
            bootloader: Some(bootloader),
            platform,
            devices,
            nested,
            machine_identifier,
        };
        parts.build()
    }
}

/// Collects the parts of a configuration.
#[derive(Debug)]
pub struct VmBuilder {
    cpus: Option<u32>,
    memory_mib: Option<u64>,
    bootloader: Option<Bootloader>,
    platform: Platform,
    devices: Vec<Device>,
    nested: bool,
    machine_identifier: Option<MachineIdentifier>,
}

/// A [`VmBuilder`] over sequences.
#[verifier::ext_equal]
pub struct VmBuilderView {
    pub cpus: Option<u32>,
    pub memory_mib: Option<u64>,
    pub bootloader: Option<BootloaderView>,
    pub platform: PlatformView,
    pub devices: Seq<DeviceView>,
    pub nested: bool,
    pub machine_identifier: Option<Seq<u8>>,
}

/// Nothing set, no devices.
pub open spec fn empty_builder() -> VmBuilderView {
    VmBuilderView {
        cpus: None,
        memory_mib: None,
        bootloader: None,
        platform: PlatformView::Generic,
        devices: Seq::empty(),
        nested: false,
        machine_identifier: None,
    }
}

impl View for VmBuilder {
    type V = VmBuilderView;

    closed spec fn view(&self) -> VmBuilderView {
        VmBuilderView {
            cpus: self.cpus,
            memory_mib: self.memory_mib,
            bootloader: match self.bootloader {
                Some(b) => Some(b@),
                None => None,
            },
            platform: self.platform@,
            devices: devices_view(self.devices@),
            nested: self.nested,
            machine_identifier: opt_bytes(self.machine_identifier),
        }
    }
}

/// What a builder yields: one CPU and 512 MiB where nothing else was asked
/// for, and an error for the first requirement that is not met.
pub open spec fn built(b: VmBuilderView) -> Result<VmConfigView, ErrorView> {
    let cpus = match b.cpus {
        Some(n) => n,
        None => 1,
    };
    let memory_mib = match b.memory_mib {
        Some(n) => n,
        None => 512,
    };
    if b.bootloader is None {
        Err(ErrorView::InvalidConfiguration("bootloader is required"@))
    } else if cpus == 0 {
        Err(ErrorView::InvalidConfiguration("cpus must be at least 1"@))
    } else if memory_mib < 128 {
        Err(ErrorView::InvalidConfiguration("memory must be at least 128 MiB"@))
    } else {
        Ok(
            VmConfigView {
                cpus,
                memory_mib,
                bootloader: b.bootloader->0,
                platform: b.platform,
                devices: b.devices,
                nested: b.nested,
                machine_identifier: b.machine_identifier,
            },
        )
    }
}

impl VmBuilder {
    /// Sets the number of virtual CPUs.
    pub fn cpus(self, count: u32) -> (r: Self)
        ensures
            r@ == (VmBuilderView { cpus: Some(count), ..self@ }),
    {
        VmBuilder { cpus: Some(count), ..self }
    }

    /// Sets the memory size.
    pub fn memory_mib(self, mib: u64) -> (r: Self)
        ensures
            r@ == (VmBuilderView { memory_mib: Some(mib), ..self@ }),
    {
        VmBuilder { memory_mib: Some(mib), ..self }
    }

    /// Sets the bootloader.
    pub fn bootloader(self, bootloader: Bootloader) -> (r: Self)
        ensures
            r@ == (VmBuilderView { bootloader: Some(bootloader@), ..self@ }),
    {
        VmBuilder { bootloader: Some(bootloader), ..self }
    }

    /// Sets the platform.
    pub fn platform(self, platform: Platform) -> (r: Self)
        ensures
            r@ == (VmBuilderView { platform: platform@, ..self@ }),
    {
        VmBuilder { platform, ..self }
    }

    /// Adds one device behind the others.
    pub fn device(self, device: Device) -> (r: Self)
        ensures
            r@ == (VmBuilderView { devices: self@.devices.push(device@), ..self@ }),
    {
        let mut devices = self.devices;
        devices.push(device);
        assert(devices_view(devices@) =~= devices_view(self.devices@).push(device@));
        VmBuilder { devices, ..self }
    }

    /// Adds several devices behind the others.
    pub fn devices(self, devices: Vec<Device>) -> (r: Self)
        ensures
            r@ == (VmBuilderView { devices: self@.devices + devices_view(devices@), ..self@ }),
    {
        let mut all = self.devices;
        let mut more = devices;
        all.append(&mut more);
        assert(devices_view(all@) =~= devices_view(self.devices@) + devices_view(devices@));
        VmBuilder { devices: all, ..self }
    }

    /// Asks for nested virtualization.
    pub fn nested(self, nested: bool) -> (r: Self)
        ensures
            r@ == (VmBuilderView { nested, ..self@ }),
    {
        VmBuilder { nested, ..self }
    }

    /// Sets the machine identifier for the Generic platform.
    ///
    /// Required when restoring from a save file, since the save is bound to
    /// the identifier that was active when it was written.
    pub fn machine_identifier(self, id: MachineIdentifier) -> (r: Self)
        ensures
            r@ == (VmBuilderView { machine_identifier: Some(id@), ..self@ }),
    {
        VmBuilder { machine_identifier: Some(id), ..self }
    }

    /// The configuration, where it is complete and in range.
    pub fn build(self) -> (r: Result<VmConfig, Error>)
        ensures
            result_view(r) == built(self@),
    {
        let cpus: u32 = self.cpus.unwrap_or(1);
        let memory_mib: u64 = self.memory_mib.unwrap_or(512);
        let bootloader = match self.bootloader {
            Some(b) => b,
            None => {
                return Err(Error::InvalidConfiguration("bootloader is required".to_owned()));
            },
        };
        if cpus == 0 {
            return Err(Error::InvalidConfiguration("cpus must be at least 1".to_owned()));
        }
        if memory_mib < 128 {
            return Err(Error::InvalidConfiguration("memory must be at least 128 MiB".to_owned()));
        }
        Ok(
            VmConfig {
                cpus,
                memory_mib,
                bootloader,
                platform: self.platform,
                devices: self.devices,
                nested: self.nested,
                machine_identifier: self.machine_identifier,
            },
        )
    }
}

/// Whatever the builder accepts has at least one CPU and 128 MiB, and keeps
/// every part that was set.
pub proof fn law_built_configurations_are_valid(b: VmBuilderView)
    ensures
        built(b) matches Ok(c) ==> c.is_valid() && c.devices == b.devices && c.nested == b.nested
            && c.platform == b.platform && Some(c.bootloader) == b.bootloader
            && c.machine_identifier == b.machine_identifier && (b.cpus matches Some(n) ==> c.cpus
            == n) && (b.memory_mib matches Some(m) ==> c.memory_mib == m),
{
}

/// What is put together from the parts of a configuration is that
/// configuration again, exactly where it is a valid one.
pub proof fn law_valid_parts_are_accepted(c: VmConfigView)
    ensures
        built(
            (VmBuilderView {
                cpus: Some(c.cpus),
                memory_mib: Some(c.memory_mib),
                bootloader: Some(c.bootloader),
                platform: c.platform,
                devices: c.devices,
                nested: c.nested,
                machine_identifier: c.machine_identifier,
            }),
        ) == Ok::<VmConfigView, ErrorView>(c) <==> c.is_valid(),
{
}

/// A builder with a bootloader and nothing else is accepted, with one CPU and
/// 512 MiB and no devices.
pub proof fn law_defaults_are_accepted(bootloader: BootloaderView)
    ensures
        built((VmBuilderView { bootloader: Some(bootloader), ..empty_builder() })) == Ok::<
            VmConfigView,
            ErrorView,
        >(
            VmConfigView {
                cpus: 1,
                memory_mib: 512,
                bootloader,
                platform: PlatformView::Generic,
                devices: Seq::empty(),
                nested: false,
                machine_identifier: None,
            },
        ),
{
}

/// A builder yields a configuration exactly where it has a bootloader, at
/// least one CPU and at least 128 MiB, as far as they were set; what was not
/// set is one CPU and 512 MiB. Anything else is an invalid configuration.
pub proof fn law_builders_that_are_accepted(b: VmBuilderView)
    ensures
        built(b) is Ok <==> b.bootloader is Some && (b.cpus matches Some(n) ==> n > 0) && (
        b.memory_mib matches Some(m) ==> m >= 128),
        built(b) matches Ok(c) ==> (b.cpus is None ==> c.cpus == 1) && (b.memory_mib is None
            ==> c.memory_mib == 512),
        built(b) matches Err(e) ==> e is InvalidConfiguration,
{
}

} // verus!

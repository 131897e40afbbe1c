//! Building the configuration of the framework.
use vstd::prelude::*;

use crate::config::bootloader::Bootloader;
use crate::config::vm::{clone_bytes, opt_bytes, VmConfig, VmConfigView};
use crate::error::{outcome, result_view, Error, ErrorView};

verus! {

/// The largest memory size, in MiB, whose number of bytes fits the framework.
pub const MAX_MEMORY_MIB: u64 = 17_592_186_044_415;

/// What is set on the configuration before its parts are built.
#[derive(Debug, Clone, Copy, PartialEq, Eq, Structural)]
pub struct MachineSize {
    pub cpus: u32,
    pub memory_bytes: u64,
}

/// Whether a configuration can be built at all: a macOS guest cannot be
/// nested.
pub open spec fn nesting_check(config: VmConfigView) -> Result<(), ErrorView> {
    if config.nested && config.bootloader is MacOs {
        Err(
            ErrorView::InvalidConfiguration(
                "nested virtualization is not supported with macOS bootloader"@,
            ),
        )
    } else {
        Ok(())
    }
}

/// The size of the machine, or why it cannot be built.
pub open spec fn machine_size(config: VmConfigView) -> Result<MachineSize, ErrorView> {
    match nesting_check(config) {
        Ok(_) => Ok(
            MachineSize {
                cpus: config.cpus,
                memory_bytes: (config.memory_mib * 1_048_576) as u64,
            },
        ),
        Err(e) => Err(e),
    }
}

/// The size of the machine, or why it cannot be built.
pub fn build_vz_config(config: &VmConfig) -> (r: Result<MachineSize, Error>)
    requires
        config@.memory_mib <= MAX_MEMORY_MIB,
    ensures
        outcome(r) == machine_size(config@),
{
    if config.nested() {
        if let Bootloader::MacOs(_) = config.bootloader() {
            return Err(
                Error::InvalidConfiguration(
                    "nested virtualization is not supported with macOS bootloader".to_owned(),
                ),
            );
        }
    }
    Ok(MachineSize { cpus: config.cpus(), memory_bytes: config.memory_mib() * 1_048_576 })
}

/// What is set on the framework's generic platform.
#[derive(Debug)]
pub struct GenericPlatform {
    pub nested: bool,
    pub machine_identifier: Option<Vec<u8>>,
}

/// A [`GenericPlatform`] over sequences.
pub struct GenericPlatformView {
    pub nested: bool,
    pub machine_identifier: Option<Seq<u8>>,
}

impl View for GenericPlatform {
    type V = GenericPlatformView;

    open spec fn view(&self) -> GenericPlatformView {
        GenericPlatformView {
            nested: self.nested,
            machine_identifier: opt_bytes(self.machine_identifier),
        }
    }
}

/// What is set on the framework's generic platform. Nesting must be supported
/// by the host where it is asked for.
pub open spec fn generic_platform_of(config: VmConfigView, nesting_supported: bool) -> Result<
    GenericPlatformView,
    ErrorView,
> {
    if config.nested && !nesting_supported {
        Err(
            ErrorView::InvalidConfiguration(
                "nested virtualization is not supported on this system"@,
            ),
        )
    } else {
        Ok(
            GenericPlatformView {
                nested: config.nested,
                machine_identifier: config.machine_identifier,
            },
        )
    }
}

/// What is set on the framework's generic platform.
pub fn build_generic_platform(config: &VmConfig, nesting_supported: bool) -> (r: Result<
    GenericPlatform,
    Error,
>)
    ensures
        result_view(r) == generic_platform_of(config@, nesting_supported),
{
    if config.nested() && !nesting_supported {
        return Err(
            Error::InvalidConfiguration(
                "nested virtualization is not supported on this system".to_owned(),
            ),
        );
    }
    Ok(
        GenericPlatform {
            nested: config.nested(),
            machine_identifier: match config.machine_identifier() {
                Some(id) => Some(clone_bytes(id)),
                None => None,
            },
        },
    )
}

/// A file that identifies a machine.
#[derive(Debug, Clone, Copy, PartialEq, Eq, Structural)]
pub enum IdentityFile {
    HardwareModel,
    MachineIdentifier,
}

/// What came of a file that identifies a machine: it was read and the
/// framework took it or not, or it could not be read.
pub fn identity_outcome(file: IdentityFile, read: Result<bool, String>) -> (r: Result<(), Error>)
    ensures
        outcome(r) == match read {
            Ok(valid) => if valid {
                Ok::<(), ErrorView>(())
            } else {
                match file {
                    IdentityFile::HardwareModel => Err(
                        ErrorView::InvalidConfiguration("invalid hardware model data"@),
                    ),
                    IdentityFile::MachineIdentifier => Err(
                        ErrorView::InvalidConfiguration("invalid machine identifier data"@),
                    ),
                }
            },
            Err(e) => Err(ErrorView::Io(e@)),
        },
{
    match read {
        Ok(valid) => if valid {
            Ok(())
        } else {
            match file {
                IdentityFile::HardwareModel => Err(
                    Error::InvalidConfiguration("invalid hardware model data".to_owned()),
                ),
                IdentityFile::MachineIdentifier => Err(
                    Error::InvalidConfiguration("invalid machine identifier data".to_owned()),
                ),
            }
        },
        Err(e) => Err(Error::Io(e)),
    }
}

/// The error where the framework turned the finished configuration down.
pub fn validation_error(reason: String) -> (r: Error)
    ensures
        r@ == ErrorView::ValidationFailed(reason@),
{
    Error::ValidationFailed(reason)
}

/// The error for a path that is not valid UTF-8.
pub fn path_error() -> (r: Error)
    ensures
        r@ == ErrorView::InvalidConfiguration("path contains invalid UTF-8"@),
{
    Error::InvalidConfiguration("path contains invalid UTF-8".to_owned())
}

/// The error for a stored configuration that cannot be read.
pub fn json_error(reason: String) -> (r: Error)
    ensures
        r@ == ErrorView::InvalidConfiguration(reason@),
{
    Error::InvalidConfiguration(reason)
}

/// A machine has as many CPUs as were asked for and 1024 times 1024 bytes for
/// each MiB of memory. It can be built unless it is to be nested under a macOS
/// bootloader.
pub proof fn law_machine_size(config: VmConfigView)
    requires
        config.memory_mib * 1_048_576 <= u64::MAX,
    ensures
        machine_size(config) is Err <==> config.nested && config.bootloader is MacOs,
        machine_size(config) matches Ok(size) ==> size.cpus == config.cpus && size.memory_bytes
            == 1024 * (1024 * config.memory_mib),
        machine_size(config) matches Err(e) ==> e is InvalidConfiguration,
{
}

/// A Generic platform has the configured identifier, and is nested exactly
/// where that was asked for. It is refused only where the host cannot nest.
pub proof fn law_generic_platform(config: VmConfigView, nesting_supported: bool)
    ensures
        generic_platform_of(config, nesting_supported) is Err <==> config.nested
            && !nesting_supported,
        generic_platform_of(config, nesting_supported) matches Ok(p) ==> p.nested == config.nested
            && p.machine_identifier == config.machine_identifier,
        generic_platform_of(config, nesting_supported) matches Err(e)
            ==> e is InvalidConfiguration,
{
}

} // verus!

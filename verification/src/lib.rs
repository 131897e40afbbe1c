//! Management of macOS virtual machines.
//!
//! The library decides: it holds the configuration of a machine and its
//! life cycle, says what is asked of the operating system and of the
//! Virtualization framework, and interprets what they answer. The program
//! around it performs the calls.
pub mod cli;
pub mod config;
pub mod error;
pub mod number;
pub mod path;
pub mod relay;
pub mod rounding;
pub mod sys;
pub mod text;
pub mod time;
pub mod vm;
pub mod vsock;

pub use config::bootloader::{Bootloader, EfiBootloader, LinuxBootloader, MacOsBootloader};
pub use config::device::audio::VirtioSound;
pub use config::device::fs::{Rosetta, SharedDir, VirtioFs};
pub use config::device::gpu::{MacGraphics, VirtioGpu};
pub use config::device::input::VirtioInput;
pub use config::device::network::{
    Ipv4Addr, MacAddress, NetAttachment, VirtioNet, VmnetConfig, VmnetMode,
};
pub use config::device::serial::{SerialAttachment, VirtioSerial};
pub use config::device::storage::{
    DiskBackend, DiskCachingMode, DiskSyncMode, Nbd, Nvme, UsbMassStorage, VirtioBlk,
};
pub use config::device::vsock::VirtioVsock;
pub use config::device::Device;
pub use config::platform::{MacOsPlatform, MachineIdentifier, Platform};
pub use config::vm::{VmBuilder, VmConfig};
pub use error::{Error, VzErrorCode};
pub use vm::handle::VmHandle;
pub use vm::machine::VirtualMachine;
pub use vm::metrics::{ResourceDelta, ResourceUsage};
pub use vm::network_metrics::{NetworkDelta, NetworkUsage, VmnetInterface};
pub use vm::state::VmState;
pub use vsock::VsockConnection;

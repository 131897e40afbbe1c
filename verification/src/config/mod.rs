//! Configuration of a virtual machine.
pub mod bootloader;
pub mod device;
pub mod platform;
pub mod vm;

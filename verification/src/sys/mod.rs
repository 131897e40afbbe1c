//! What is asked of the operating system and the framework, and what their
//! answers mean.
pub mod block_device;
pub mod bootloader;
pub mod config_builder;
pub mod device;
pub mod machine;
pub mod process_info;
pub mod unix_socket;
pub mod vmnet;

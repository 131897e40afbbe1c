//! Running virtual machines.
pub mod handle;
pub mod machine;
pub mod metrics;
pub mod network_metrics;
pub mod state;
pub mod vmnet_probe;
pub mod vmnet_proxy;

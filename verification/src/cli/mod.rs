//! The command line: what its options mean and what a run does with them.
pub mod args;
pub mod cloudinit;
pub mod grammar;
pub mod options;
pub mod parse;
pub mod run;
pub mod timesync;

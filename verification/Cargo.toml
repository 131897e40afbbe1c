[package]
name = "vfrust"
version = "0.1.0"
edition = "2021"
publish = false

[dependencies]
clap = { version = "4", features = ["derive"] }
serde = { version = "1", features = ["derive"] }
serde_json = "1"
thiserror = "2"
tokio = { version = "1", features = ["rt-multi-thread", "sync", "time", "signal", "macros"] }
tracing = "0.1"
tracing-subscriber = { version = "0.3", features = ["env-filter"] }
libc = "0.2"
block2 = "0.6"
core-foundation-sys = "0.8"
dispatch2 = "0.3"
objc2 = "0.6"
objc2-foundation = "0.3"
objc2-virtualization = "0.3"

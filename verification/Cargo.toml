[package]
name = "glide_kvm"
version = "0.1.0"
edition = "2021"
publish = false

[dependencies]
anyhow = "1"
arboard = { version = "3", default-features = false }
bincode = "1.3"
clap = { version = "4", features = ["derive"] }
evdev = "0.12"
lazy_static = "1"
serde = { version = "1", features = ["derive"] }
tokio = { version = "1", features = ["rt-multi-thread", "net", "macros"] }
tracing = "0.1"
tracing-subscriber = "0.3"

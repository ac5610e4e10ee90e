[package]
name = "libruntime"
version = "0.1.0"
edition = "2021"
publish = false

[dependencies]
anyhow = "1"
bollard = "*"
clap = "4"
flate2 = "1"
futures-util = "0.3"
log = "0.4"
nix = { version = "0.29", features = ["sched", "fs", "socket", "mount", "uio", "process", "user"] }
oci-spec = "0.6"
serde = { version = "1", features = ["derive"] }
serde_json = "1"
shellexpand = "3"
simple_logger = "4"
tar = "0.4"
vfs = "0.12"

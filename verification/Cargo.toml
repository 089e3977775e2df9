[package]
name = "xbelite2"
version = "0.1.0"
edition = "2021"
publish = false

[dependencies]
serde = { version = "1", features = ["derive"] }
serde_json = "1"
anyhow = "1"
log = "0.4"
env_logger = "*"
ctrlc = "3"
libc = "0.2"
nix = { version = "*", features = ["ioctl", "poll", "fs"] }
rusb = "*"

[package]
name = "serialport-low-latency"
version = "0.1.0"
edition = "2021"
publish = false

[dependencies]
nix = { version = "0.26", default-features = false, features = ["ioctl"] }
serialport = { version = "4", default-features = false }

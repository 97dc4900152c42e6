[package]
name = "perceptia"
version = "0.1.0"
edition = "2021"
publish = false

[dependencies]
libc = "=0.2.191"
time = "=0.1.45"
uinput-sys = "=0.1.7"
yaml-rust = "=0.4.5"
xml-rs = "=1.0.0"
serde = { version = "=1.0.229", features = ["derive"] }
serde_yaml = "=0.9.34"
clap = "=4.6.7"
nix = { version = "=0.31.3", features = ["signal", "process", "mman", "fs"] }
byteorder = "=1.5.0"

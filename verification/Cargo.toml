[package]
name = "tokio_os_timer"
version = "0.1.0"
edition = "2021"
publish = false

[dependencies]
futures = "0.1"
libc = "0.2"
mio = "0.6"
nix = "0.14"
tokio-reactor = "0.1"

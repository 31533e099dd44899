[package]
name = "wayland_backend"
version = "0.1.0"
edition = "2021"
publish = false

[dependencies]
downcast-rs = "1.2"
log = "0.4"
nix = "0.22"
smallvec = "1"
thiserror = "1.0"

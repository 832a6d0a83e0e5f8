[package]
name = "data_device"
version = "0.1.0"
edition = "2021"
publish = false

[dependencies]
nix = "0.26"
wayland-client = "0.30"
wayland-backend = "0.1"
calloop = "0.10"

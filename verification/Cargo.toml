[package]
name = "axdriver_net"
version = "0.1.0"
edition = "2021"
publish = false

[dependencies]
axdriver_base = "0.1"
crate_interface = "0.1"
log = "0.4"

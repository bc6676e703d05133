[package]
name = "hid_tools"
version = "0.1.0"
edition = "2021"
publish = false

[dependencies]
bitstream-io = "=2.6.0"

[dev-dependencies]
nom = "=7.1.3"

[package]
name = "uat_decode"
version = "0.1.0"
edition = "2021"
publish = false

[dependencies]
bitfield = "*"
byteorder = "1"
hex = "*"

[package]
name = "x64_paging"
version = "0.1.0"
edition = "2021"
publish = false

[dependencies]
bitfield-struct = "*"
log = "0.4"

[package]
name = "vdatabprot"
version = "0.1.0"
edition = "2021"
publish = false

[dependencies]
sha2 = "0.10"
zstd = "0.13"

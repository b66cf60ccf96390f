[package]
name = "iso"
version = "0.1.0"
edition = "2021"
publish = false

[dependencies]
bitflags = "*"
byteorder = "*"
cargo_metadata = "*"
clap = { version = "*", features = ["derive"] }
dbsdk-vu-asm = "*"
image = { version = "*", default-features = false, features = ["png"] }

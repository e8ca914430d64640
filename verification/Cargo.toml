[package]
name = "tagged_base64"
version = "0.1.0"
edition = "2021"
publish = false

[dependencies]
base64 = "0.13"
crc-any = "2"
clap = { version = "4", features = ["derive"] }

[package]
name = "docker_to_uefi_bootable_image"
version = "0.1.0"
edition = "2021"
publish = false

[dependencies]
anyhow = "1"
clap = { version = "4", features = ["derive"] }
rand = "0.8"
tempfile = "3"
uuid = { version = "1", features = ["v4"] }

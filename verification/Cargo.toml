[package]
name = "linuxfs"
version = "0.1.0"
edition = "2021"
publish = false

[dependencies]
ext4-view = "*"
serde = { version = "1", features = ["derive"] }
toml = "*"
squashfs_reader = "*"
xfs = "*"

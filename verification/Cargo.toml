[package]
name = "apfs_mount_helper"
version = "0.1.0"
edition = "2021"
publish = false

[dependencies]
anyhow = "*"
libc = "*"
plist = "*"
serde_json = "*"
structopt = "*"

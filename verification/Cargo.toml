[package]
name = "proxmox"
version = "0.1.0"
edition = "2021"
publish = false

[dependencies]
anyhow = "1.0"
failure = "0.1"
http = "0.1"
libc = "0.2"
nix = "0.19.1"

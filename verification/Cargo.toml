[package]
name = "lucet_runtime_internals"
version = "0.1.0"
edition = "2021"
publish = false

[dependencies]
rand = "0.7"
libc = "0.2"
nix = "0.20"

[package]
name = "keyvault"
version = "0.1.0"
edition = "2021"
publish = false

[dependencies]
sodiumoxide = "=0.2.7"
nix = { version = "=0.31.3", features = ["sched", "socket"] }
seccomp = "=0.1.2"

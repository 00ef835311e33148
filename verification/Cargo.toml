[package]
name = "multipkgdp"
version = "0.1.0"
edition = "2021"
publish = false

[dependencies]
which = "*"
nix = { version = "*", features = ["user"] }
anyhow = "*"
clap = { version = "*", features = ["derive"] }
serde = { version = "*", features = ["derive"] }
serde_yaml = "*"
etc-os-release = "*"

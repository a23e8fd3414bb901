[package]
name = "korobok"
version = "0.1.0"
edition = "2021"
publish = false

[dependencies]
anyhow = "1"
clap = { version = "4", features = ["derive"] }
clone3 = "*"
interprocess = "2"
libc = "0.2"
rand = "0.8"
sys-mount = { version = "*", default-features = false }

[package]
name = "nosv"
version = "0.1.0"
edition = "2021"
publish = false

[dependencies]
libc = "0.2"
nosv-sys = "*"
socket2 = { version = "*", features = ["all"] }
io-uring = "*"
tokio = { version = "1", default-features = false }

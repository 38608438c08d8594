[package]
name = "tun"
version = "0.1.0"
edition = "2021"
publish = false

[dependencies]
error-chain = { version = "0.12", default-features = false }
futures = "0.1"
ioctl-sys = "*"
libc = "0.2"
mio = "0.6"
tokio-core = "0.1"

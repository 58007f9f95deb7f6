[package]
name = "vmsock"
version = "0.1.0"
edition = "2021"
publish = false

[dependencies]
libc = "0.2"
socket2 = { version = "0.5", features = ["all"] }

[dev-dependencies]
uuid = "1"

[package]
name = "atom_ipc"
version = "0.1.0"
edition = "2021"
publish = false

[dependencies]
crc32fast = "1"
uuid = { version = "1", features = ["v4"] }
tokio = { version = "1", features = ["full"] }

[package]
name = "request_response"
version = "0.1.0"
edition = "2021"
publish = false

[dependencies]
anyhow = "1"
clap = { version = "4", features = ["derive"] }
crossbeam-channel = "0.5"
ctrlc = "3"
iceoryx2 = "*"

[dev-dependencies]
bincode = "1"

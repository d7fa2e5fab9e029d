[package]
name = "mumble_core"
version = "0.1.0"
edition = "2021"
publish = false

[dependencies]
bytes = "=1.12.1"
mumble-protocol-2x = "=0.5.0"
openssl = "=0.10.81"
tokio-util = { version = "=0.6.10", features = ["codec"] }

[package]
name = "vmb_proto"
version = "0.1.0"
edition = "2021"
publish = false

[dependencies]
bytes = "*"
byteorder = "*"
tokio-util = { version = "*", features = ["codec"] }

[package]
name = "loqui"
version = "0.1.0"
edition = "2021"
publish = false

[dependencies]
bytesize = "1"
failure = "0.1"
futures = "0.1"
futures-timer = "0.1"
log = "0.4"
tokio = "0.1"
tokio-codec = "0.1"

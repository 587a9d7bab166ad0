[package]
name = "imap_idle"
version = "0.1.0"
edition = "2021"
publish = false

[dependencies]
futures = "0.3"
imap-proto = "0.16"
stop-token = "0.7"
tokio = { version = "1", features = ["time"] }

[package]
name = "tcpbasics"
version = "0.1.0"
edition = "2021"
publish = false

[dependencies]
tokio = { version = "*", features = ["net", "rt-multi-thread", "macros", "io-util", "time"] }

[package]
name = "socks5_core"
version = "0.1.0"
edition = "2021"
publish = false

[dependencies]
tokio = { version = "1", default-features = false, features = ["net", "io-util", "rt", "rt-multi-thread", "macros", "time"] }

[package]
name = "mpfoer"
version = "0.1.0"
edition = "2021"
publish = false

[dependencies]
anyhow = "1"
rand = "0.8"
reqwest = { version = "0.11", default-features = false, features = ["rustls-tls"] }
serenity = "0.10"
tokio = { version = "1", features = ["fs", "io-util", "macros", "process", "rt-multi-thread"] }

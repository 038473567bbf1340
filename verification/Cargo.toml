[package]
name = "bloodin"
version = "0.1.0"
edition = "2021"
publish = false

[dependencies]
tokio = { version = "1", features = ["rt-multi-thread", "sync", "time", "fs", "io-util", "macros"] }
reqwest = { version = "0.12", default-features = false, features = ["rustls-tls", "json"] }
rodio = "0.19"
symphonia = "0.5"
serde = { version = "1", features = ["derive"] }
serde_json = "1"
urlencoding = "2"
uuid = { version = "1", features = ["v4"] }

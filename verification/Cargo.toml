[package]
name = "mangaplus-api"
version = "0.1.0"
edition = "2021"
publish = false

[dependencies]
getrandom = "0.2"
hex = "0.4"
md-5 = "0.10"
prost = "0.13"
reqwest = { version = "0.12", default-features = false, features = ["cookies", "rustls-tls"] }
tokio = { version = "1", features = ["sync", "time", "fs", "rt"] }

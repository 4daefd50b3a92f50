[package]
name = "bitcoind_cache"
version = "0.1.0"
edition = "2021"
publish = false

[dependencies]
bitcoin = "=0.29.2"
reqwest = { version = "=0.11.27", default-features = false }
rust-s3 = { version = "=0.32.3", default-features = false, features = ["fail-on-err", "tokio-rustls-tls"] }
tokio = { version = "=1.54.1", features = ["fs"] }

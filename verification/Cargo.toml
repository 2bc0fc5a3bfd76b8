[package]
name = "libman"
version = "0.1.0"
edition = "2021"
publish = false

[dependencies]
rspotify = { version = "=0.12.0", default-features = false, features = ["client-ureq", "ureq-rustls-tls"] }
failure = "=0.1.8"

[package]
name = "mpd_bridge"
version = "0.1.0"
edition = "2021"
publish = false

[dependencies]
anyhow = "=1.0.104"
futures = { version = "=0.3.34", features = ["compat"] }
regex = "=1.13.1"
rspotify = { version = "0.13", default-features = false, features = ["client-ureq", "ureq-rustls-tls"] }
tokio-core = "=0.1.18"

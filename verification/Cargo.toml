[package]
name = "openblas-build"
version = "0.1.0"
edition = "2021"
publish = false

[dependencies]
anyhow = "1"
flate2 = "1"
native-tls = "0.2"
tar = "0.4"
ureq = { version = "2", default-features = false, features = ["native-tls", "gzip"] }

[package]
name = "canary-engine"
version = "0.1.0"
edition = "2021"
publish = false

[dependencies]
log = "0.4"
ndarray = "0.16"
ort = { version = "=2.0.0-rc.10", default-features = false, features = ["std", "ndarray", "load-dynamic"] }
thiserror = "2"

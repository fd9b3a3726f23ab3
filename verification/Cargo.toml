[package]
name = "transistor"
version = "0.1.0"
edition = "2021"
publish = false

[dependencies]
chrono = "*"
edn-rs = "*"
reqwest = { version = "*", default-features = false, features = ["blocking"] }

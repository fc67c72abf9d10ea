[package]
name = "polymny"
version = "0.1.0"
edition = "2021"
publish = false

[dependencies]
sha256 = { version = "*", default-features = false }
harsh = "*"
uuid = { version = "*", features = ["v4"] }

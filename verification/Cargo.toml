[package]
name = "web_ns"
version = "0.1.0"
edition = "2021"
publish = false

[dependencies]
unicase = "=2.10.0"
phf = { version = "=0.14.0", features = ["unicase"] }

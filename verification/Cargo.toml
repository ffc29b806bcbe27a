[package]
name = "pointers"
version = "0.1.0"
edition = "2021"
publish = false

[dependencies]
linux-futex = "*"
tokio = { version = "1", default-features = false, features = ["sync"] }

[package]
name = "tee_morphosis"
version = "0.1.0"
edition = "2021"
publish = false

[dependencies]
image = { version = "0.25", default-features = false, features = ["png", "jpeg", "webp"] }
bytes = "1"
thiserror = "2"
reqwest = { version = "0.12", default-features = false }
tokio = { version = "1", features = ["rt"] }

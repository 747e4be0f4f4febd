[package]
name = "screenshot_native"
version = "0.1.0"
edition = "2021"
publish = false

[dependencies]
base64 = "=0.22.1"
image = { version = "=0.25.10", default-features = false, features = ["png"] }
serde = { version = "=1.0.229", features = ["derive"] }
arboard = { version = "=3.7.0", default-features = false, features = ["image-data"] }

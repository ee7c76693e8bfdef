[package]
name = "gencam_client"
version = "0.1.0"
edition = "2021"
publish = false

[dependencies]
serde_json = "=1.0.151"
refimage = { version = "=0.13.1", features = ["image"] }
image = { version = "=0.25.10", default-features = false, features = ["png"] }

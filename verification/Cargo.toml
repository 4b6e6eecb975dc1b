[package]
name = "image_classifier"
version = "0.1.0"
edition = "2021"
publish = false

[dependencies]
image = "*"
serde = { version = "1", features = ["derive"] }
tensorflow = "*"

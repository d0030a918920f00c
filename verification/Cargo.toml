[package]
name = "vector_tools"
version = "0.1.0"
edition = "2021"
publish = false

[dependencies]
glam = "0.24"
remain = "0.2"
serde = { version = "1", features = ["derive"] }
specta = "*"

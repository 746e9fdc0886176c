[package]
name = "dodge"
version = "0.1.0"
edition = "2021"
publish = false

[dependencies]
amethyst = { version = "0.15", default-features = false, features = ["renderer", "vulkan"] }
nalgebra = "0.19"
rand = "0.7"
serde = { version = "1", features = ["derive"] }

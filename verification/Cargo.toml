[package]
name = "rayt_rs"
version = "0.1.0"
edition = "2021"
publish = false

[dependencies]
glam = "*"
rand = "*"
rayon = "*"
serde = { version = "*", features = ["derive"] }
toml = "*"

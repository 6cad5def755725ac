[package]
name = "cnccoder"
version = "0.1.0"
edition = "2021"
publish = false

[dependencies]
anyhow = "*"
glam = "*"
hostname = "*"
moby-name-gen = "*"
nalgebra = "*"
serde = { version = "*", features = ["derive"] }
serde_json = "*"
time = { version = "*", features = ["local-offset", "formatting"] }
username = "*"

[dev-dependencies]
regex = "*"

[package]
name = "compressible"
version = "0.1.0"
edition = "2021"
publish = false

[dependencies]
snap = "1"
serde = { version = "1", features = ["derive"] }
serde_json = "1"
thiserror = "1"

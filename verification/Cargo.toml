[package]
name = "fable-data"
version = "0.1.0"
edition = "2021"
publish = false

[dependencies]
lzo = "*"
bcndecode = "*"
bytemuck = { version = "1", features = ["derive"] }
serde = { version = "1", features = ["derive"] }

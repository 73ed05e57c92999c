[package]
name = "scientist_registry"
version = "0.1.0"
edition = "2021"
publish = false

[dependencies]
secret-cosmwasm-std = "=1.1.11"
secret-toolkit = "=0.10.3"
schemars = "=0.8.22"
serde = { version = "=1.0.229", features = ["derive"] }

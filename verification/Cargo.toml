[package]
name = "hanzo_vm"
version = "0.1.0"
edition = "2021"
publish = false

[dependencies]
revm = { version = "=43.0.3", default-features = false, features = ["std"] }
serde = { version = "=1.0.229", features = ["derive"] }
anyhow = "=1.0.104"
hex = "=0.4.3"
hanzonet-pqc = { version = "=1.1.21", default-features = false, features = ["ml-dsa"] }
lux-precompile = { version = "=0.1.0", default-features = false }

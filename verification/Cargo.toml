[package]
name = "gitify"
version = "0.1.0"
edition = "2021"
publish = false

[dependencies]
dirs = "5"
image = { version = "0.25", default-features = false, features = ["png"] }
keyring = "2"
log = "0.4"
reqwest = { version = "0.12", features = ["json"] }
serde = { version = "1", features = ["derive"] }
serde_json = "1"
tokio = { version = "1", features = ["time"] }

[package]
name = "swampqueen_core"
version = "0.1.0"
edition = "2021"
publish = false

[dependencies]
camino = "=1.2.6"
cli-prompts = "*"
rand = "=0.9.5"
serde = { version = "=1.0.229", features = ["derive"] }
serde_json = "=1.0.151"

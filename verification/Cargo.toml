[package]
name = "workflow"
version = "0.1.0"
edition = "2021"
publish = false

[dependencies]
sha2 = "=0.10.9"
rand = "=0.9.5"
uuid = { version = "=1.29.1", features = ["v4"] }
chrono = "=0.4.45"
serde = { version = "=1.0.229", features = ["derive"] }
serde_json = "=1.0.154"
toml = "=0.8.23"
anyhow = "=1.0.104"
bcrypt = "*"
clap = { version = "4", features = ["derive"] }

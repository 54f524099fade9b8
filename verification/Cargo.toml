[package]
name = "cnosdb"
version = "0.1.0"
edition = "2021"
publish = false

[dependencies]
rand = "=0.8.8"
http = "=0.2.12"
bcrypt = "*"
serde = { version = "1", features = ["derive"] }
toml = "*"

[package]
name = "kwaak"
version = "0.1.0"
edition = "2021"
publish = false

[dependencies]
uuid = { version = "*", features = ["v4"] }
url = "*"
diffy = "*"
serde = { version = "*", features = ["derive"] }
toml = "*"

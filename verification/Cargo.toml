[package]
name = "xberg"
version = "0.1.0"
edition = "2021"
publish = false

[dependencies]
calamine = "*"
rmp-serde = "*"
serde = { version = "*", features = ["derive"] }
serde_json = "*"
thiserror = "*"

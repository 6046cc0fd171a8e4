[package]
name = "sqlgraph"
version = "0.1.0"
edition = "2021"
publish = false

[dependencies]
cookie = "*"
serde = { version = "*", features = ["derive"] }
serde_json = "*"
bincode = "1"
thiserror = "*"

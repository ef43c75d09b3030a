[package]
name = "cli_todo"
version = "0.1.0"
edition = "2021"
publish = false

[dependencies]
colored = "2"
serde = { version = "1", features = ["derive"] }
serde_json = "1"

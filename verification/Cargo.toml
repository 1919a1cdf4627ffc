[package]
name = "asusctl"
version = "0.1.0"
edition = "2021"
publish = false

[dependencies]
zbus = "*"
gumdrop = "*"
serde = { version = "*", features = ["derive"] }

[package]
name = "beatforge_core"
version = "0.1.0"
edition = "2021"
publish = false

[dependencies]
walkdir = "*"
notify = "*"
serde = { version = "*", features = ["derive"] }
serde_json = "*"
discord-rich-presence = "*"

[package]
name = "editor_core"
version = "0.1.0"
edition = "2021"
publish = false

[dependencies]
ropey = "=1.6.1"
serde = { version = "1", features = ["derive"] }
arboard = { version = "3", default-features = false }
tauri = { version = "2", default-features = false }

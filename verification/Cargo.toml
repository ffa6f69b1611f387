[package]
name = "diary_store"
version = "0.1.0"
edition = "2021"
publish = false

[dependencies]
anyhow = "1"
clap = { version = "4", features = ["derive"] }
gtk = "0.18"
rusqlite = { version = "0.40", features = ["bundled-sqlcipher"] }
tauri = { version = "2", default-features = false }

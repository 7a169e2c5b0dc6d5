[package]
name = "godot_manager"
version = "0.1.0"
edition = "2021"
publish = false

[dependencies]
anyhow = "=1.0.104"
bytes = "=1.12.1"
chrono = "=0.4.45"
dioxus = "=0.4.3"
log = "=0.4.34"
octocrab = "=0.40.0"
reqwest = "=0.12.28"
serde = { version = "=1.0.229", features = ["derive"] }
zip = { version = "=0.6.6", default-features = false, features = ["deflate"] }

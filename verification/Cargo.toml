[package]
name = "hyprscreen"
version = "0.1.0"
edition = "2021"
publish = false

[dependencies]
anyhow = "1"
chrono = "0.4"
gstreamer = "0.23"
gtk4 = "0.9"
libc = "0.2"
serde = { version = "1", features = ["derive"] }
serde_json = "1"

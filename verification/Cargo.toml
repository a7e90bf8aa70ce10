[package]
name = "media_organizer"
version = "0.1.0"
edition = "2021"
publish = false

[dependencies]
kamadak-exif = "*"
chrono = "0.4"
walkdir = "2"
serde = { version = "1", features = ["derive"] }
serde_json = "1"

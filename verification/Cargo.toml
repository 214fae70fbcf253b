[package]
name = "anime-organizer"
version = "1.0.0"
edition = "2021"
publish = false

[dependencies]
clap = { version = "4", features = ["derive"] }
regex = "1"
thiserror = "1"
walkdir = "2"

[dev-dependencies]
tempfile = "3"

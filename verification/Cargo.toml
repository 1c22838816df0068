[package]
name = "big_screen_launcher"
version = "0.1.0"
edition = "2021"
publish = false

[dependencies]
crc32fast = "=1.5.4"
sys-locale = "=0.3.2"
chrono = { version = "=0.4.45", default-features = false, features = ["clock", "std"] }
serde = { version = "=1.0.229", features = ["derive"] }
serde_json = "=1.0.154"
dirs = "=7.0.0"
walkdir = "=2.5.0"
regex = "=1.13.1"
image = { version = "0.24", default-features = false, features = ["png", "jpeg"] }

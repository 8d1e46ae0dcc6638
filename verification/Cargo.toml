[package]
name = "finch"
version = "0.1.0"
edition = "2021"
publish = false

[dependencies]
image = { version = "=0.24.9", default-features = false, features = ["gif", "jpeg", "ico", "png", "webp", "bmp"] }
base64 = "=0.22.1"
rayon = "=1.12.0"
reqwest = { version = "=0.12.28", default-features = false, features = ["blocking"] }
serde = { version = "=1.0.229", features = ["derive"] }
serde_json = "=1.0.151"
structopt = "=0.3.26"
walkdir = "=2.5.0"

[package]
name = "mpd_notify"
version = "0.1.0"
edition = "2021"
publish = false

[dependencies]
anyhow = "1"
blake3 = { version = "1", features = ["pure"] }
bytes = "1"
dirs = "*"
hex = "0.4"
image = { version = "0.25", default-features = false, features = ["jpeg", "png", "gif", "bmp", "webp"] }
mpd_client = "1"
notify-rust = { version = "4", features = ["images"] }
tokio = { version = "1", features = ["net", "rt", "macros"] }

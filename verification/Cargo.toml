[package]
name = "audio_deck"
version = "0.1.0"
edition = "2021"
publish = false

[dependencies]
mp3-duration = "*"
rodio = "0.17"
parking_lot = "*"
serde = { version = "*", features = ["derive"] }

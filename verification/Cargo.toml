[package]
name = "audio_visualizer"
version = "0.1.0"
edition = "2021"
publish = false

[dependencies]
native-dialog = "0.7"
rodio = { version = "0.17", default-features = false, features = ["mp3"] }

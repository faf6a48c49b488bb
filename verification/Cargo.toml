[package]
name = "zeditor"
version = "0.1.0"
edition = "2021"
publish = false

[dependencies]
anyhow = "=1.0.104"
eframe = { version = "=0.29.1", default-features = false, features = ["glow"] }
egui = { version = "=0.29.1", default-features = false }
egui-video = { version = "=0.9.0", default-features = false }
ffmpeg-sidecar = { version = "=2.7.0", default-features = false, features = ["download_ffmpeg"] }
serde = { version = "=1.0.229", features = ["derive"] }
serde_json = "=1.0.154"

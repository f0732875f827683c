[package]
name = "forge2k"
version = "1.0.0"
edition = "2021"
publish = false

[dependencies]
anyhow = "1"
chrono = "0.4"
clap = { version = "4", features = ["derive"] }
colored = "2"
eframe = { version = "0.31", default-features = false, features = ["default_fonts", "glow", "x11"] }
serde_json = "1"

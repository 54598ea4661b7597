[package]
name = "gb_emulator"
version = "0.1.0"
edition = "2021"
publish = false

[dependencies]
chrono = "=0.4.45"
eframe = { version = "=0.37.0", default-features = false, features = ["default_fonts", "glow", "x11"] }
egui = { version = "=0.37.0", default-features = false }
serde = { version = "=1.0.229", features = ["derive"] }
serde_json = "=1.0.154"

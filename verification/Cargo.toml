[package]
name = "synth_rs"
version = "0.1.0"
edition = "2021"
publish = false

[dependencies]
eframe = { version = "0.30", default-features = false, features = ["default_fonts", "glow", "x11"] }
egui = "0.30"
serde = { version = "1", features = ["derive"] }
serde_json = "1"

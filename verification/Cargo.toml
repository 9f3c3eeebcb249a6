[package]
name = "ralph_core"
version = "0.1.0"
edition = "2021"
publish = false

[dependencies]
chrono = "0.4"
crossbeam-channel = "0.5"
eframe = { version = "0.31", default-features = false, features = ["default_fonts", "glow", "x11"] }
egui = "0.31"
fastrand = "2"
serde = { version = "1", features = ["derive"] }
serde_json = "1"

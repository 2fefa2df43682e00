[package]
name = "egui_kit"
version = "0.1.0"
edition = "2021"
publish = false

[dependencies]
egui = { version = "=0.33.3", default-features = false }
chrono = { version = "=0.4.45", default-features = false, features = ["clock"] }
log = "=0.4.34"
crossbeam-channel = "=0.5.17"

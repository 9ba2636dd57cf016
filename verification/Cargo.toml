[package]
name = "pacejka_tuner"
version = "0.1.0"
edition = "2021"
publish = false

[dependencies]
egui = { version = "0.26", default-features = false }
egui_plot = { version = "0.26", default-features = false }
serde = { version = "1", features = ["derive"] }

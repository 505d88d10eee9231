[package]
name = "krusty_grab"
version = "0.1.0"
edition = "2021"
publish = false

[dependencies]
anyhow = "=1.0.104"
arboard = "3"
chrono = { version = "=0.4.45", default-features = false, features = ["std", "clock"] }
confy = "=0.5.1"
eframe = { version = "=0.22.0", default-features = false, features = ["glow", "default_fonts"] }
egui = "=0.22.0"
egui_extras = { version = "=0.22.0", features = ["svg"] }
image = { version = "=0.24.9", default-features = false, features = ["png", "jpeg", "gif"] }
native-dialog = "0.6"
serde = { version = "=1.0.229", features = ["derive"] }
tracing = "=0.1.44"
tracing-subscriber = "=0.3.23"

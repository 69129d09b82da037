[package]
name = "break_time"
version = "0.1.0"
edition = "2021"
publish = false

[dependencies]
chrono = { version = "0.4", default-features = false, features = ["clock"] }
device_query = "1.1"
egui = "0.26"
egui_extras = { version = "0.26", default-features = false, features = ["image"] }
notify-rust = "4"
serde = { version = "1", features = ["derive"] }

[package]
name = "backdrop"
version = "0.1.0"
edition = "2021"
publish = false

[dependencies]
anyhow = "=1.0.104"
bincode = "=1.3.3"
chrono = "=0.4.45"
clap = { version = "=4.6.7", features = ["derive"] }
image = "=0.24.9"
interprocess = "=1.2.1"
serde = { version = "=1.0.229", features = ["derive"] }
winit = { version = "=0.29.15", default-features = false, features = ["rwh_05", "wayland", "wayland-dlopen"] }

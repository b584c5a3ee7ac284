[package]
name = "electrum"
version = "0.1.0"
edition = "2021"
publish = false

[dependencies]
calloop = { version = "*", features = ["executor"] }
smithay = { version = "*", default-features = false, features = ["desktop", "wayland_frontend", "backend_winit"] }
xdg = "*"
num_cpus = "*"
futures = "*"

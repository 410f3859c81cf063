[package]
name = "reset_graphics_for_rdp"
version = "0.1.0"
edition = "2021"
publish = false

[dependencies]
serde = { version = "*", features = ["derive"] }
wmi = "*"

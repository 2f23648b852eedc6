[package]
name = "bird-pet"
version = "0.1.0"
edition = "2021"
publish = false

[dependencies]
active-win-pos-rs = "*"
serde = { version = "1", features = ["derive"] }
sysinfo = "*"

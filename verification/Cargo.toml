[package]
name = "chickadee"
version = "0.1.0"
edition = "2021"
publish = false

[dependencies]
uuid = { version = "1", features = ["v4"] }
winit = "0.30"
pollster = "0.3"

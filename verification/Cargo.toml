[package]
name = "window_tuner"
version = "0.1.0"
edition = "2021"
publish = false

[dependencies]
serde = { version = "1", features = ["derive"] }
cocoa = "0.26"
core-foundation = "0.10"
core-graphics = "0.24"
objc = "0.2"

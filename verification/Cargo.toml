[package]
name = "bluedot"
version = "0.1.0"
edition = "2021"
publish = false

[dependencies]
uuid = "1"
btleplug = "0.11"
tokio = { version = "1", features = ["rt-multi-thread", "time"] }
godot = "0.2"

[package]
name = "scene_manager"
version = "0.1.0"
edition = "2021"
publish = false

[dependencies]
futures = "=0.3.34"
godot = { version = "=0.5.5", features = ["api-4-7", "experimental-threads"] }
parking_lot = "=0.13.0"
tracing = "=0.1.44"
uuid = { version = "=1.29.0", features = ["v4"] }

[package]
name = "desktop_runtime"
version = "0.1.0"
edition = "2021"
publish = false

[dependencies]
winit = "0.30"
tokio = { version = "1", features = ["rt-multi-thread", "sync"] }
uuid = "1"
accesskit = "*"

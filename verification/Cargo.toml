[package]
name = "brul"
version = "0.1.0"
edition = "2021"
publish = false

[dependencies]
pollster = "=1.0.1"
thiserror = "=2.0.21"
tokio = { version = "=1.54.1", features = ["rt", "rt-multi-thread", "time"] }
tracing = "=0.1.44"
wgpu = "=28.0.0"
winit = "=0.30.13"

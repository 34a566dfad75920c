[package]
name = "rvllm"
version = "0.1.0"
edition = "2021"
publish = false

[dependencies]
cudarc = { version = "0.19", default-features = false, features = ["std", "driver", "dynamic-loading", "cuda-12080"] }
eframe = { version = "0.31", default-features = false, features = ["glow", "x11"] }
egui = "0.31"
libloading = "0.8"
serde = { version = "1", features = ["derive"] }
serde_json = "1"
sha2 = "0.10"
tokio = { version = "1", features = ["rt"] }

[dev-dependencies]
half = "2"

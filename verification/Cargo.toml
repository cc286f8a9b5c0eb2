[package]
name = "file_dialog_bridge"
version = "0.1.0"
edition = "2021"
publish = false

[dependencies]
serde = { version = "=1.0.229", features = ["derive"] }
tauri = { version = "=2.12.5", default-features = false }
tokio = { version = "=1.54.1", features = ["time"] }

[dev-dependencies]
tokio = { version = "=1.54.1", features = ["rt", "time", "test-util"] }

[package]
name = "amber_sensor"
version = "0.1.0"
edition = "2021"
publish = false

[dependencies]
crc = "=3.4.0"
cobs = { version = "=0.4.0", features = ["alloc"] }
heapless = "=0.8.0"
serde = { version = "=1.0.229", features = ["derive"] }
serde_json = "=1.0.154"
thiserror = "=2.0.21"
image = { version = "=0.25.10", default-features = false, features = ["png"] }
axum = { version = "0.8", default-features = false, features = ["ws", "http1", "tokio"] }
tokio = { version = "1", features = ["rt", "net", "time"] }

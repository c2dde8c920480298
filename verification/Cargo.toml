[package]
name = "vision"
version = "0.1.0"
edition = "2021"
publish = false

[dependencies]
apriltag = "=0.4.0"
clap = { version = "=4.6.7", features = ["derive"] }
crossbeam-channel = "=0.5.17"
flexi_logger = "=0.31.10"
image = { version = "=0.25.10", default-features = false }
imageproc = "=0.27.0"
log = "=0.4.34"
measurements = "=0.11.1"
nalgebra = "=0.35.0"
network-tables = { version = "=0.1.3", features = ["client-v4"] }
nokhwa = { version = "=0.10.11", features = ["output-threaded"] }
serde = { version = "=1.0.229", features = ["derive"] }
serde_json = "=1.0.154"
thiserror = "=2.0.21"
tokio = { version = "=1.54.1", features = ["rt-multi-thread", "time"] }
toml = "=1.1.8"

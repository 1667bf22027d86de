[package]
name = "weight-sensor-pump-controller"
version = "0.1.0"
edition = "2021"
publish = false

[dependencies]
rppal = "*"
serde = { version = "1", features = ["derive"] }
toml = "*"
thiserror = "*"
log = "0.4"
env_logger = "*"
tokio = { version = "1", features = ["rt-multi-thread", "macros", "signal", "time"] }

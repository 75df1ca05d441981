[package]
name = "tick_shutdown"
version = "0.1.0"
edition = "2021"
publish = false

[dependencies]
tokio = { version = "=1.53.2", features = ["rt-multi-thread", "macros", "time", "signal"] }
tokio-util = { version = "=0.7.19", features = ["rt"] }
log = "=0.4.34"
env_logger = "=0.11.11"

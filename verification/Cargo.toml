[package]
name = "guayusa"
version = "0.1.0"
edition = "2021"
publish = false

[dependencies]
anyhow = "1"
env_logger = "0.11"
log = "0.4"
parking_lot = "0.12"
tokio = { version = "1", features = ["macros", "net", "rt", "signal", "sync", "time"] }
wayland-client = "0.31"
wayland-protocols = { version = "0.32", features = ["client", "unstable"] }
zbus = { version = "5", default-features = false, features = ["tokio"] }

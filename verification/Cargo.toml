[package]
name = "voxels_application"
version = "0.1.0"
edition = "2021"
publish = false

[dependencies]
url = { version = "=2.5.8", features = ["serde"] }
uuid = { version = "=1.29.0", features = ["v4", "serde"] }
serde = { version = "=1.0.229", features = ["derive"] }
thiserror = "=1.0.69"
dbus = "=0.9.12"
dbus-tokio = "=0.7.6"
tokio = { version = "=1.54.1", features = ["rt", "macros"] }
tokio-util = "=0.7.20"

[package]
name = "device_recovery"
version = "0.1.0"
edition = "2021"
publish = false

[dependencies]
blade-graphics = "*"
log = "=0.4.34"
serde = { version = "=1.0.229", features = ["derive"] }
serde_json = "=1.0.154"
thiserror = "=1.0.69"
vk = "=0.0.1"
zbus = "=3.15.2"

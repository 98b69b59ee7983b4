[package]
name = "webray"
version = "0.1.0"
edition = "2021"
publish = false

[dependencies]
glam = { version = "0.25", features = ["serde"] }
encase = { version = "0.7", features = ["glam"] }
wgpu = "0.19"
flume = "0.11"
pollster = "0.3"
serde = { version = "1", features = ["derive"] }
serde_json = "1"
log = "0.4"
env_logger = "0.10"
image = { version = "0.24", default-features = false, features = ["png"] }
rand = "0.8"

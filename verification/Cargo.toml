[package]
name = "verso"
version = "0.1.0"
edition = "2021"
publish = false

[dependencies]
bincode = "1"
dpi = { version = "0.1", features = ["serde"] }
http = "1"
url = { version = "2", features = ["serde"] }
uuid = { version = "1", features = ["v4", "serde"] }
arboard = "3"
crossbeam-channel = "0.5"
env_logger = "*"
euclid = "*"
ipc-channel = "0.20"
log = "0.4"
serde = { version = "1", features = ["derive"] }
webrender = "*"
webrender_api = "*"
winit = "0.30"

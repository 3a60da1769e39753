[package]
name = "iwgui"
version = "0.1.0"
edition = "2021"
publish = false

[dependencies]
fxhash = "0.2"
num = "0.4"
uuid = { version = "0.8", features = ["v4"] }
serde = { version = "1", features = ["derive"] }
serde_json = "1"
log = "0.4"
parking_lot = "0.11"
tungstenite = { version = "0.13", default-features = false }
simple_logger = "1"

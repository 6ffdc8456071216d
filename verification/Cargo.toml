[package]
name = "gripper"
version = "0.1.0"
edition = "2021"
publish = false

[dependencies]
deku = "*"
serde = { version = "*", features = ["derive"] }
socketcan = "*"
tungstenite = "*"

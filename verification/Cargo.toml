[package]
name = "audio_transport"
version = "0.1.0"
edition = "2021"
publish = false

[dependencies]
frame-header = "*"
rtrb = "*"
matchbox_socket = "*"
tokio = { version = "1", features = ["rt-multi-thread", "time", "macros"] }

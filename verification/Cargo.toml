[package]
name = "mqui"
version = "0.1.0"
edition = "2021"
publish = false

[dependencies]
mqtt-endpoint-tokio = "=0.6.6"
tokio = { version = "=1.54.1", features = ["rt-multi-thread", "sync", "macros", "net"] }
eframe = { version = "=0.32.3", default-features = false, features = ["glow", "default_fonts", "x11"] }

[package]
name = "potatoids"
version = "0.1.0"
edition = "2021"
publish = false

[dependencies]
rand = "0.8"
web-sys = { version = "0.3", features = ["CanvasRenderingContext2d"] }

[package]
name = "vita_input"
version = "0.1.0"
edition = "2021"
publish = false

[dependencies]
glam = "=0.34.2"
vitasdk-sys = { version = "=0.3.3", features = ["SceCtrl_stub", "SceTouch_stub"] }

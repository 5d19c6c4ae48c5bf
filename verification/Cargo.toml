[package]
name = "cull_canyon"
version = "0.1.0"
edition = "2021"
publish = false

[dependencies]
objc = "0.2"
raw-window-handle = "0.3"
lazy_static = "1.4"

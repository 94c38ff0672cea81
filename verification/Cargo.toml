[package]
name = "mouse_tracker"
version = "0.1.0"
edition = "2021"
publish = false

[dependencies]
rdev = "*"

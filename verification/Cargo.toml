[package]
name = "ui_overlay"
version = "0.1.0"
edition = "2021"
publish = false

[dependencies]
glfw = "*"
sciter-rs = "*"
gl = "*"

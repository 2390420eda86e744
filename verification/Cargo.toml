[package]
name = "bowl"
version = "0.1.0"
edition = "2021"
publish = false

[dependencies]
gl = "*"
glfw = "*"
glam = "*"
once_cell = "*"
backtrace = "*"

[package]
name = "ball_demo"
version = "0.1.0"
edition = "2021"
publish = false

[dependencies]
rand = "0.8"
num-traits = "0.2"
raylib-ffi = "*"

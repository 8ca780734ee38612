[package]
name = "video_inspect"
version = "0.1.0"
edition = "2021"
publish = false

[dependencies]
h264-reader = "*"

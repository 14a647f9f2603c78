[package]
name = "image_processor"
version = "0.1.0"
edition = "2021"
publish = false

[dependencies]
eframe = "=0.15.0"
image = "=0.24.9"
rfd = "=0.6.4"

[package]
name = "canvas"
version = "0.1.0"
edition = "2021"
publish = false

[dependencies]
log = "=0.4.34"
env_logger = "=0.10.2"
winit = "=0.29.15"

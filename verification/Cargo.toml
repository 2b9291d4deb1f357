[package]
name = "scene_composer"
version = "0.1.0"
edition = "2021"
publish = false

[dependencies]
parley = "=0.1.0"
pollster = "=0.3.0"

[package]
name = "lyon_front"
version = "1.0.1"
edition = "2021"
publish = false

[dependencies]
lyon = "1.0"

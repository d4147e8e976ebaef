[package]
name = "buoyant"
version = "0.1.0"
edition = "2021"
publish = false

[dependencies]
heapless = "*"
embedded-graphics = "*"
embedded-graphics-core = "*"
embedded-touch = "*"
fixed = "*"

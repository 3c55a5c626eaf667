[package]
name = "wave"
version = "0.1.0"
edition = "2021"
publish = false

[dependencies]
ringbuf = "0.4"
cpal = "0.15"
crossterm = "0.27"
lazy_static = "1"

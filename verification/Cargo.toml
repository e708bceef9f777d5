[package]
name = "to_rust_a_gauge"
version = "0.1.0"
edition = "2021"
publish = false

[dependencies]
embassy-sync = "*"
smart-leds = "*"

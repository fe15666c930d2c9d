[package]
name = "cpu6502"
version = "0.1.0"
edition = "2021"

[dependencies]
macroquad = { version = "0.4", default-features = false }

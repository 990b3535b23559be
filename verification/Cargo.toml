[package]
name = "buzzer"
version = "0.1.0"
edition = "2021"
publish = false

[dependencies]
avr-device = { version = "*", features = ["atmega16"] }
embedded-hal = "1"

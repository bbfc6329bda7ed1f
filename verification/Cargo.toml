[package]
name = "traffic_junction"
version = "0.1.0"
edition = "2021"
publish = false

[dependencies]
embedded-hal = { version = "=0.2.7", features = ["unproven"] }
avr-device = { version = "=0.5.4", features = ["atmega2560"] }
ufmt = "=0.2.0"

[package]
name = "avr_eeprom"
version = "0.1.0"
edition = "2021"
publish = false

[dependencies]
avr-device = { version = "0.5", features = ["atmega328p"] }
embedded-storage = "0.2"

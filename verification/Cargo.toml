[package]
name = "aht20_thermostat"
version = "0.1.0"
edition = "2021"
publish = false

[dependencies]
embedded-hal = "1"

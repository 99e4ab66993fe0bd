[package]
name = "gpio_pins"
version = "0.1.0"
edition = "2021"
publish = false

[dependencies]
efm32pg23-pac = { version = "=0.1.4", default-features = false, features = ["efm32pg23b200"] }

[package]
name = "inky_ssd1608"
version = "0.1.0"
edition = "2021"
publish = false

[dependencies]
embedded-graphics = "0.7"
embedded-hal = "0.2"
i2cdev = "0.5"
linux-embedded-hal = "0.3"

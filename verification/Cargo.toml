[package]
name = "hl_driver"
version = "0.1.0"
edition = "2021"
publish = false

[dependencies]
critical-section = "1"
embedded-graphics = "0.8"
embedded-hal = "1.0"
esp-hal = { version = "*", features = ["esp32s3", "unstable"] }
esp-println = { version = "*", features = ["esp32s3"] }
gc9a01-rs = "*"

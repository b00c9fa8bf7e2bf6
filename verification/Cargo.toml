[package]
name = "ups_core"
version = "0.1.0"
edition = "2021"
publish = false

[dependencies]
bq769x0-async-rs = { version = "=0.1.1", features = ["async"] }
ina226 = { version = "=0.3.0", features = ["async"] }
embedded-hal-async = "=1.0.0"
embassy-time = { version = "=0.5.1", features = ["std"] }
embassy-futures = "=0.1.2"
embassy-usb = "=0.6.0"

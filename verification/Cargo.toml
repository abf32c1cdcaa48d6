[package]
name = "timer_driver"
version = "0.1.0"
edition = "2021"
publish = false

[dependencies]
futures = "0.3"
pin-utils = "0.1"

[package]
name = "ad983x"
version = "0.1.0"
edition = "2021"
publish = false

[dependencies]
embedded-hal = "1"

[dev-dependencies]
embedded-hal-mock = "*"

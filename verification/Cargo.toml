[package]
name = "stmpe1600"
version = "0.1.0"
edition = "2021"
publish = false

[dependencies]
embedded-hal = "0.2"

[dev-dependencies]
embedded-hal-mock = "*"

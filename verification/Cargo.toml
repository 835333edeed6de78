[package]
name = "cancellation"
version = "0.1.0"
edition = "2021"
publish = false

[dependencies]
atomex = "0.1.1"
abs_sync = "*"
pin-project = "*"
pin-utils = "0.1.1"

[package]
name = "g213"
version = "0.1.0"
edition = "2021"
publish = false

[dependencies]
hex = "0.4"
log = "0.4"
quick-error = "2"
rusb = "0.9"

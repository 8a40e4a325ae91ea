[package]
name = "capos"
version = "0.1.0"
edition = "2021"
publish = false

[dependencies]
spin = "0.9"
log = "0.4"

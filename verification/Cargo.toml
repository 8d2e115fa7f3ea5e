[package]
name = "ot-decoders"
version = "0.1.0"
edition = "2021"
publish = false

[dependencies]
chrono = "0.4"
hex = "0.4"
inventory = "0.3"

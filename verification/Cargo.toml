[package]
name = "poe_featherwing"
version = "0.1.0"
edition = "2021"
publish = false

[dependencies]
embedded-hal = "=0.2.7"
nb = "=1.1.0"
w5500-hl = { version = "=0.6.0", features = ["embedded-hal"] }

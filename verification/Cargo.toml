[package]
name = "lance-linalg"
version = "0.1.0"
edition = "2021"
publish = false

[dependencies]
arrow-array = "=58.4.1"
arrow-schema = "=58.4.1"
half = "=2.7.1"
lance-arrow = "=14.0.2"
lance-core = { version = "=14.0.2", default-features = false }
num-traits = "=0.2.19"

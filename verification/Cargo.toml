[package]
name = "inx"
version = "0.1.0"
edition = "2021"
publish = false

[dependencies]
bee-message = "0.1.7"

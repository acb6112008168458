[package]
name = "cdp"
version = "0.1.0"
edition = "2021"
publish = false

[dependencies]
realfft = "3"
thiserror = "2"

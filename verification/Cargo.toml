[package]
name = "simplex_noise"
version = "0.1.0"
edition = "2021"
publish = false

[dependencies]
rand = "=0.4.6"
lazy_static = "=1.5.1"

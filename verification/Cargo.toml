[package]
name = "libobs-wrapper"
version = "0.1.0"
edition = "2021"
publish = false

[dependencies]
lazy_static = "1.5"
log = "0.4"
crossbeam-channel = "0.5"
chrono = "0.4"

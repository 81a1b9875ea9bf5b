[package]
name = "weird_mutex"
version = "0.1.0"
edition = "2021"

[dependencies]
futures-core = "0.3"

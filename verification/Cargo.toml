[package]
name = "mkdir_touch"
version = "0.1.0"
edition = "2021"
publish = false

[dependencies]
clap = { version = "4", features = ["derive"] }
filetime = "0.2"

[package]
name = "logwork"
version = "0.1.0"
edition = "2021"
publish = false

[dependencies]
chrono = { version = "0.4", default-features = false, features = ["std"] }
clap = "2"
colored = "2"
dialoguer = { version = "0.11", default-features = false }
json = "0.12"

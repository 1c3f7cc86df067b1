[package]
name = "joker"
version = "0.1.0"
edition = "2021"
publish = false

[dependencies]
corona = "0.4"
failure = "0.1"
futures = "0.1"
log = "0.4"
tokio = "0.1"

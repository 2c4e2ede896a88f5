[package]
name = "ccconsensus"
version = "0.1.0"
edition = "2021"
publish = false

[dependencies]
sha2 = "0.10"
rand = "0.8"
sawtooth-sdk = "*"
tokio = { version = "1", features = ["rt-multi-thread", "time"] }
futures = "0.3"
log = "0.4"

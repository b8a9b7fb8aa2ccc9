[package]
name = "bmpow"
version = "0.1.0"
edition = "2021"
publish = false

[dependencies]
rust-crypto = "0.2.36"
num_cpus = "1"

[package]
name = "big_list"
version = "0.1.0"
edition = "2021"
publish = false

[dependencies]
anchor-lang = "0.26"
clockwork-sdk = "1.4"

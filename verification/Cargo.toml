[package]
name = "real_estate_factory"
version = "0.1.0"
edition = "2021"
publish = false

[dependencies]
anchor-lang = "*"

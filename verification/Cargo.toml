[package]
name = "try_as"
version = "0.1.0"
edition = "2021"

[dependencies]
quote = "1"
syn = "1"

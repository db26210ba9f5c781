[package]
name = "cache_guard"
version = "0.1.0"
edition = "2021"
publish = false

[dependencies]
async-trait = "*"

[package]
name = "cliq_resolver"
version = "0.1.0"
edition = "2021"
publish = false

[dependencies]
usage-lib = "*"
serde_json = "*"

[package]
name = "kzg"
version = "0.1.0"
edition = "2021"
publish = false

[dependencies]
tree_hash = "*"
ethereum_ssz = "*"
hex = "0.4"
serde_json = "1"
clap = "4"
tracing = "0.1"

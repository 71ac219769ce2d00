[package]
name = "xlm_ns_sdk"
version = "0.1.0"
edition = "2021"
publish = false

[dependencies]
stellar-rpc-client = "*"

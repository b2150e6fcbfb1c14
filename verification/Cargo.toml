[package]
name = "geodns_proxy"
version = "0.1.0"
edition = "2021"
publish = false

[dependencies]
cidr-utils = "*"
serde_json = "*"

[package]
name = "minikalle"
version = "0.1.0"
edition = "2021"
publish = false

[dependencies]
shakmaty = "*"
rand = "*"
serde_json = "*"

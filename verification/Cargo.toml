[package]
name = "vcu_server"
version = "0.1.0"
edition = "2021"
publish = false

[dependencies]
base64 = "=0.22.1"
hex = "=0.4.3"
sha2 = "=0.10.9"
serde_json = "1"

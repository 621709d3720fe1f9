[package]
name = "congestion_control"
version = "0.1.0"
edition = "2021"
publish = false

[dependencies]
base64 = "0.22"
log = "0.4"
thin-vec = "0.2"
url = "2"

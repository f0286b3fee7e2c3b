[package]
name = "fixclient"
version = "0.1.0"
edition = "2021"
publish = false

[dependencies]
hex = "0.4"
base64 = "0.22"
hmac = "0.12"
sha2 = "0.10"
log = "0.4"
async-std = "1"

[package]
name = "nethsm_pkcs11"
version = "0.1.0"
edition = "2021"
publish = false

[dependencies]
base64 = "0.22"
cryptoki-sys = "*"
hex = "0.4"
log = "0.4"
nethsm-sdk-rs = "*"
openssl = "0.10"

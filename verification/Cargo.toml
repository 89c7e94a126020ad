[package]
name = "vetkey_backend"
version = "0.1.0"
edition = "2021"
publish = false

[dependencies]
candid = "=0.10.37"
ic-cdk = "=0.17.2"
serde = "1"

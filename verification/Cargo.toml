[package]
name = "bitfinance"
version = "0.1.0"
edition = "2021"
publish = false

[dependencies]
candid = "*"
ic-cdk = "*"
ic-cdk-macros = "*"
num-traits = "*"
serde = "*"

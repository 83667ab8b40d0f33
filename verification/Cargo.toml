[package]
name = "ibc_core"
version = "0.1.0"
edition = "2021"
publish = false

[dependencies]
serde_json = "=1.0.154"
parity-scale-codec = "=3.7.5"
sp-runtime = "=49.0.0"
ibc-proto = "=0.52.0"
prost = "=0.13.5"

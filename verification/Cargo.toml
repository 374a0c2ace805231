[package]
name = "wmi_json"
version = "0.1.0"
edition = "2021"
publish = false

[dependencies]
napi = "2"
napi-derive = "2"
serde_json = "1"
wmi = "0.13"

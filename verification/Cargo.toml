[package]
name = "zenroom_minimal"
version = "0.1.0"
edition = "2021"
publish = false

[dependencies]
rlua = "0.17"
rlua_serde = "0.4"
base64 = "0.13"
ring = "0.16"
serde = "1"
serde_json = "1"

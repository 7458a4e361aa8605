[package]
name = "nb2pb"
version = "0.1.0"
edition = "2021"
publish = false

[dependencies]
base64 = "*"
compact_str = "*"
image = "*"
netsblox-ast = "*"

[dev-dependencies]
serde_json = "*"

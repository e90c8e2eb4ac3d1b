[package]
name = "key_tool"
version = "0.1.0"
edition = "2021"
publish = false

[dependencies]
hex = "0.4"
base64 = "0.13"
bcs = "0.1"
rand = "0.8"
ed25519-dalek = "2"
x25519-dalek = { version = "2", features = ["static_secrets"] }
sha2 = "0.10"
structopt = "0.3"

[package]
name = "seal"
version = "0.1.0"
edition = "2021"
publish = false

[dependencies]
base64 = "=0.22.1"
chrono = "=0.4.45"
copy_dir = "=0.1.3"
crossbeam-channel = "=0.5.17"
hex = "=0.4.3"
libc = "=0.2.191"
mlua = { version = "=0.10.5", features = ["luau", "serialize"] }
pkcs8 = "=0.10.2"
rand = "=0.8.8"
regex = "=1.13.1"
ring = "=0.17.14"
rsa = "=0.9.10"
serde_json_lenient = { version = "=0.2.4", features = ["preserve_order"] }
serde_yaml = "0.9"
simple_crypt = "=0.2.3"
toml = "=0.8.23"

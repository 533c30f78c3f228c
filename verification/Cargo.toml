[package]
name = "lamprey_backend"
version = "0.1.0"
edition = "2021"
publish = false

[dependencies]
base32 = "=0.5.1"
base64 = "=0.22.1"
headers = "=0.4.2"
http = "=1.5.0"
httpdate = "=1.0.3"
jsonwebkey = { version = "=0.3.5", features = ["pkcs-convert"] }
jsonwebtoken = "=9.3.1"
minijinja = "=2.24.0"
nanoid = "=0.4.0"
rand = "=0.9.5"
serde = { version = "=1.0.229", features = ["derive"] }
serde_json = { version = "=1.0.154", features = ["raw_value"] }
sha2 = "=0.10.9"
subtle = "=2.6.1"
time = "=0.3.55"
totp-rs = "=5.7.2"
url = "=2.5.8"
uuid = { version = "=1.29.0", features = ["v4"] }

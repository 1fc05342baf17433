[package]
name = "pocket_relay"
version = "0.1.0"
edition = "2021"
publish = false

[dependencies]
tdf = "=0.4.0"
ring = "=0.17.14"
base64ct = { version = "=1.8.3", features = ["alloc"] }
rand = "=0.10.3"
uuid = { version = "=1.29.0", features = ["v4"] }
email_address = "=0.2.9"
pocket-relay-udp-tunnel = "=0.0.0"
serde = { version = "=1.0.229", features = ["derive"] }
serde_json = "=1.0.154"
bitflags = "=2.13.2"
chrono = "=0.4.45"
log = "=0.4.35"
bytes = "=1.12.1"
hs256-token = "*"

[package]
name = "sensilo"
version = "0.1.0"
edition = "2021"
publish = false

[dependencies]
anyhow = "*"
async-h1 = "*"
async-native-tls = "*"
base64 = "*"
env_logger = "*"
futures = "*"
hci = "*"
http-types = "*"
log = "*"
lru = "*"
pcap-async = "*"
serde = { version = "*", features = ["derive"] }
smol = "*"
toml = "*"
ureq = "*"

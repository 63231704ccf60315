[package]
name = "ccrs"
version = "0.1.0"
edition = "2021"
publish = false

[dependencies]
hmac = "=0.12.1"
sha2 = "=0.10.9"
hex = "=0.4.3"
base64 = "=0.22.1"
hmac-sha256 = "=1.1.15"
uuid = { version = "=1.29.0", features = ["v4"] }
url = "=2.5.8"
chrono = { version = "=0.4.45", default-features = false, features = ["std", "clock"] }
serde_json = "=1.0.154"
anyhow = "=1.0.104"
bytes = "=1.12.1"
futures = "=0.3.34"
async-trait = "=0.1.92"
tokio = { version = "=1.54.1", features = ["rt-multi-thread", "macros", "time", "sync"] }
tokio-util = "=0.7.20"
tokio-tungstenite = { version = "=0.26.2", default-features = false, features = ["connect", "handshake"] }
tungstenite = { version = "=0.26.2", default-features = false, features = ["handshake"] }
reqwest = { version = "=0.12.28", default-features = false, features = ["json"] }
flate2 = "=1.1.10"
ed25519-dalek = { version = "=2.2.0", features = ["pkcs8", "pem"] }
openssl = "=0.10.82"
alloy = { version = "=1.8.3", default-features = false, features = ["signer-local"] }
rmp-serde = "=1.3.1"
getrandom = "=0.4.3"

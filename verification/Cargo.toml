[package]
name = "rs_cli"
version = "0.1.0"
edition = "2021"
publish = false

[dependencies]
anyhow = "=1.0.104"
axum = "=0.8.9"
base64 = "=0.22.1"
blake3 = "=1.8.7"
chacha20poly1305 = "=0.10.1"
clap = { version = "=4.6.7", features = ["derive"] }
csv = "=1.4.0"
ed25519-dalek = "=2.2.0"
jsonwebtoken = "=9.3.1"
rand = "=0.9.5"
serde_json = "=1.0.154"
serde_yaml = "=0.9.34"
tokio = { version = "=1.54.1", features = ["rt-multi-thread", "macros", "fs", "net", "io-util"] }
toml = "=0.8.23"
tower-http = { version = "=0.6.11", features = ["fs"] }
tracing = "=0.1.44"
tracing-subscriber = "=0.3.23"
zxcvbn = "=3.1.1"

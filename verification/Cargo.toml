[package]
name = "bitswap_monitoring"
version = "0.1.0"
edition = "2021"
publish = false

[dependencies]
chardet = "=0.2.4"
chrono = "=0.4.45"
cid = "=0.5.1"
clap = "=2.34.0"
diesel = { version = "=1.4.8", features = ["postgres", "r2d2", "chrono"] }
dotenv = "=0.15.0"
failure = "=0.1.8"
flate2 = "=1.1.10"
futures-util = "=0.3.34"
ipfs-api-prelude = "*"
lapin = "=4.12.3"
lazy_static = "=1.5.1"
log = "=0.4.34"
maxminddb = "=0.32.0"
multiaddr = "*"
multibase = "=0.8.0"
multihash = "=0.11.4"
prometheus = { version = "=0.13.4", default-features = false }
serde = { version = "=1.0.229", features = ["derive"] }
serde_json = "=1.0.154"
serde_yaml = "=0.9.34"
tokio = { version = "=1.54.1", features = ["full"] }
tokio-util = "=0.7.20"
whatlang = "=0.18.0"

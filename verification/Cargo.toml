[package]
name = "device_discovery"
version = "0.1.0"
edition = "2021"
publish = false

[dependencies]
serde_json = "=1.0.154"
sxd-document = "=0.3.2"
sxd-xpath = "=0.4.2"
uuid = { version = "=0.8.2", features = ["v4"] }
serde = { version = "=1.0.229", features = ["derive"] }
yaserde = "=0.3.16"
yaserde_derive = "=0.3.17"
xml-rs = "=0.8.29"
anyhow = "=1.0.104"
log = "=0.4.34"
http = "=0.2.12"
bytes = "=1.12.1"
futures-util = "=0.3.34"
async-trait = "=0.1.92"
prost = "=0.6.1"
tokio = { version = "=0.2.25", features = ["rt-threaded", "sync", "time", "macros", "stream"] }
tonic = "=0.1.1"
wasi-experimental-http = "=0.10.0"

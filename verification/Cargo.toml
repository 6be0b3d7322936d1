[package]
name = "bitbazaar"
version = "0.1.0"
edition = "2021"
publish = false

[dependencies]
arc-swap = "=1.9.3"
async-semaphore = "=1.2.1"
cfg-if = "=1.0.5"
chrono = { version = "=0.4.45", features = ["serde"] }
comfy-table = { version = "=7.2.2", default-features = false }
dashmap = "=6.2.1"
deadpool-redis = "=0.18.0"
error-stack = "=0.5.0"
flate2 = "=1.1.10"
futures = "=0.3.34"
itertools = "=0.13.0"
named-lock = "=0.4.1"
once_cell = "=1.21.4"
parking_lot = "=0.12.5"
percent-encoding = "=2.3.2"
pin-project-lite = "=0.2.17"
portpicker = "=0.1.1"
rand = "=0.8.8"
rayon = "=1.12.0"
redis = { version = "=0.27.6", features = ["aio", "tokio-comp"] }
serde = { version = "=1.0.229", features = ["derive"] }
serde_json = "=1.0.154"
sha1_smol = "=1.0.1"
tar = "=0.4.46"
tokio = { version = "=1.54.1", features = ["full"] }
tracing = "=0.1.44"
uuid = { version = "=1.29.0", features = ["v4"] }

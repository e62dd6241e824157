[package]
name = "remote_trait_object"
version = "0.1.0"
edition = "2021"
publish = false

[dependencies]
bincode = "=1.3.3"
crossbeam = "=0.8.5"
linkme = "=0.3.37"
log = "=0.4.34"
parking_lot = "=0.12.5"
proc-macro2 = "1"
quote = "1"
serde = { version = "=1.0.229", features = ["derive"] }
serde_cbor = "=0.11.2"
syn = { version = "1", features = ["full", "extra-traits"] }
threadpool = "=1.8.1"

[dev-dependencies]
serde_json = "=1.0.154"

[package]
name = "typesize"
version = "0.1.13"
edition = "2021"
publish = false

[dependencies]
arrayvec = "=0.7.8"
dashmap = { version = "=5.5.3", features = ["raw-api"] }
extract_map = "=0.1.2"
halfbrown = "=0.2.5"
hashbrown = "=0.14.5"
mini-moka = "=0.10.3"
nonmax = "=0.5.5"
parking_lot = "=0.12.5"
serde_json = "=1.0.154"
simd-json = "=0.13.11"
url = "=2.5.8"
syn = { version = "=2.0.119", features = ["full"] }
quote = "=1.0.47"
proc-macro2 = "=1.0.107"

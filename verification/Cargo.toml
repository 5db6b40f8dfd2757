[package]
name = "fidl_client"
version = "0.1.0"
edition = "2021"
publish = false

[dependencies]
slab = "0.4"
strsim = "0.10"
serde_json = "1"
futures = "0.3"
parking_lot = "0.11"
thiserror = "1"
argh = "0.1"
log = "0.4"

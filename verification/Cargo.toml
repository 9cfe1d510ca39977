[package]
name = "airbag"
version = "0.1.0"
edition = "2021"
publish = false

[dependencies]
anyhow = "*"
crossbeam = "*"
log = "*"
parking_lot = "*"
reqwest = { version = "*", default-features = false, features = ["blocking", "json"] }
serde = "*"
serde_json = "*"
sha2 = "*"

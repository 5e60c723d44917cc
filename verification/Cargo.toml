[package]
name = "ethercat-esi"
version = "0.2.0"
edition = "2021"
publish = false

[dependencies]
ethercat-types = "*"
serde = { version = "1", features = ["derive"] }
serde-xml-rs = "0.4"

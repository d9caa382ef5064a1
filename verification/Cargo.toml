[package]
name = "pigeo"
version = "0.1.0"
edition = "2021"
publish = false

[dependencies]
log = "0.4"
openssl = "0.10"
postgres = "0.19"
serde = { version = "1", features = ["derive"] }
serde_json = "1"
simple_logger = "*"
thiserror = "*"

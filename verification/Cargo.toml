[package]
name = "jwxt_client"
version = "0.1.0"
edition = "2021"
publish = false

[dependencies]
serde_json = "1"
base64 = "0.13"
rsa = "0.5"
rand = "0.8"
scraper = "0.19"
reqwest = { version = "0.11", default-features = false }
async-trait = "0.1"
anyhow = "1"

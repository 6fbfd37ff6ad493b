[package]
name = "tweety_rs"
version = "0.1.0"
edition = "2021"
publish = false

[dependencies]
serde = "=1.0.229"
serde_json = "=1.0.151"
url = "=2.5.8"
reqwest = "=0.12.28"
reqwest-oauth1 = "=0.3.0"

[package]
name = "attested_rpc"
version = "0.1.0"
edition = "2021"
publish = false

[dependencies]
hex = "=0.4.3"
rand = "=0.10.3"
ring = "=0.17.14"
jsonwebtoken = "=9.3.1"
serde_json = "=1.0.151"
rustls = { version = "0.23", default-features = false, features = ["ring", "std", "tls12"] }
threadpool = "=1.8.1"
anyhow = "=1.0.104"
log = "=0.4.34"
env_logger = "=0.11.11"

[package]
name = "ucdp_gateway"
version = "0.1.0"
edition = "2021"
publish = false

[dependencies]
actix-cors = "*"
actix-web = "*"
aerospike = "*"
async-trait = "0.1"
config = "0.10"
crossbeam-channel = "0.5"
env_logger = "*"
futures = "0.3"
log = "0.4"
rdkafka = "*"
serde = { version = "1", features = ["derive"] }
serde_json = "1"
thiserror = "1"
uuid = { version = "0.8", features = ["v4"] }
web3 = { version = "*", default-features = false, features = ["http"] }

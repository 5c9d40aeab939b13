[package]
name = "ckb_graphql"
version = "0.1.0"
edition = "2021"
publish = false

[dependencies]
ckb-db = "=1.1.1"
ckb-jsonrpc-types = "=1.2.1"
ckb-rocksdb = "=0.21.1"
ckb-store = "=1.1.2"
ckb-types = "=1.1.4"
clap = { version = "2", default-features = false }
env_logger = { version = "0.7", default-features = false }
futures = "0.1"
hyper = "0.12"
juniper = "0.14"
juniper_hyper = "0.5"
serde_json = "1"
serde_plain = "0.3"

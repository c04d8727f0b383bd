[package]
name = "rs_eip_adapter"
version = "0.1.0"
edition = "2021"
publish = false

[dependencies]
bytes = "1"
log = "0.4"
env_logger = "0.11"
tokio = { version = "1", features = ["net", "sync", "rt-multi-thread", "macros"] }

[package]
name = "osc_relay"
version = "0.1.0"
edition = "2021"
publish = false

[dependencies]
rosc = "*"
tokio = { version = "1", features = ["net", "sync", "rt-multi-thread", "macros"] }
anyhow = "1"
log = "0.4"
env_logger = "*"
thiserror = "*"

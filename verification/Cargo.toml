[package]
name = "snappy_bridge"
version = "0.1.0"
edition = "2021"
publish = false

[dependencies]
base64 = "0.13"
env_logger = "0.11"
jiff = "0.2"
log = "0.4"
snap = "1"
tracing-subscriber = "0.3"

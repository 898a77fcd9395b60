[package]
name = "twitch_bot"
version = "0.1.0"
edition = "2021"
publish = false

[dependencies]
chrono = "=0.3.0"
clap = { version = "=2.34.0", features = ["yaml"] }
rust-crypto = "=0.2.36"
ctrlc = "=3.1.10"
futures = "=0.1.31"
futures-util = "0.3"
hyper = "0.13"
hyper-tls = "0.4"
irc = "=0.14.1"
json = "=0.11.15"
lazy_static = "=1.5.1"
log = "=0.3.9"
native-tls = "=0.2.18"
parking_lot = "=0.4.8"
pretty_env_logger = "=0.2.5"
tokio = { version = "0.2", features = ["rt-core", "rt-threaded", "time", "macros"] }
tokio-core = "=0.1.18"
tokio-io = "=0.1.13"
tokio-timer = "=0.1.2"
tokio-tls = "=0.2.1"

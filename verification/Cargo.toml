[package]
name = "stress"
version = "0.1.0"
edition = "2021"
publish = false

[dependencies]
clap = "2"
failure = "0.1"
futures = "0.1"
hyper = "0.12"
hyper-tls = "0.3"
log = "0.4"
native-tls = "0.2"
pretty_env_logger = "0.3"
tokio = "0.1"

[package]
name = "discord_bridge"
version = "0.1.0"
edition = "2021"
publish = false

[dependencies]
discord = "=0.8.1"
env_logger = "=0.4.3"
log = "=0.3.9"
openssl = "=0.7.14"
rustc-serialize = "=0.3.25"

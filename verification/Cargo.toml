[package]
name = "kobovnc"
version = "0.1.0"
edition = "2021"
publish = false

[dependencies]
anyhow = "1"
clap = "3"
env_logger = "*"
log = "0.4"

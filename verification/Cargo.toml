[package]
name = "backup_store"
version = "0.1.0"
edition = "2021"
publish = false

[dependencies]
brotli = "*"
notify = "*"
crossbeam-channel = "*"
walkdir = "*"
tracing-subscriber = "*"

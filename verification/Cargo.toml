[package]
name = "rustylight"
version = "0.1.0"
edition = "2021"
publish = false

[dependencies]
confy = "*"
crossbeam-channel = "0.5"
log = "0.4"
log4rs = "*"
midir = "*"
rand = "0.8"
serde = { version = "1", features = ["derive"] }
serde_yaml = "*"
serialport = { version = "4", default-features = false }

[package]
name = "mdns_repeater"
version = "0.1.0"
edition = "2021"
publish = false

[dependencies]
if-addrs2 = "*"
socket2 = "*"
clap = { version = "*", features = ["derive"] }
log = "*"
env_logger = "*"

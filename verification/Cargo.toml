[package]
name = "mqtt_session"
version = "0.1.0"
edition = "2021"
publish = false

[dependencies]
async-channel = "=1.9.0"
async-std = "=1.12.0"
log = "=0.4.34"
ntex = "2"
zenoh = { version = "=0.10.1-rc", default-features = false, features = ["unstable"] }

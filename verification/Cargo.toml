[package]
name = "tower_log"
version = "0.1.0"
edition = "2021"
publish = false

[dependencies]
log = "0.4"
futures = "0.1"
tower = "0.1"

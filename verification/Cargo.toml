[package]
name = "vk_raii"
version = "0.1.0"
edition = "2021"
publish = false

[dependencies]
ash = "=0.31.0"
log = "=0.4.34"
scopeguard = "1.2"

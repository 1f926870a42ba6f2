[package]
name = "rgb_ifaces"
version = "0.1.0"
edition = "2021"
publish = false

[dependencies]
aluvm = "=0.10.7"
strict_types = "=2.9.1"

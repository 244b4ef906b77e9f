[package]
name = "pi_spine_rs"
version = "0.1.0"
edition = "2021"
publish = false

[dependencies]
pi_hash = "*"
bytemuck = "*"

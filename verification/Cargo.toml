[package]
name = "sgemm_harness"
version = "0.1.0"
edition = "2021"
publish = false

[dependencies]
anyhow = "*"
metal = "*"

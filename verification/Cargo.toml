[package]
name = "fusion_rhi"
version = "0.1.0"
edition = "2021"
publish = false

[dependencies]
ash = "0.38"

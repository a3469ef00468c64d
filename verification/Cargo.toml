[package]
name = "autograph"
version = "0.1.0"
edition = "2021"
publish = false

[dependencies]
spirv_headers = "=1.5.0"
num-traits = "=0.2.19"
petgraph = "=0.8.3"
gl = "=0.14.0"
nalgebra = "=0.35.0"
regex-syntax = "0.8"

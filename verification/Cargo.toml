[package]
name = "ring_sense"
version = "0.1.0"
edition = "2021"
publish = false

[dependencies]
rand = "0.8"
mcp3208 = "*"
rs_ws281x = "*"

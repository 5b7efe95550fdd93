[package]
name = "unet_topology"
version = "0.1.0"
edition = "2021"
publish = false

[dependencies]
descent = "*"
bytemuck = "*"
rand = "*"

[package]
name = "particle_life"
version = "0.1.0"
edition = "2021"
publish = false

[dependencies]
rand = "0.9"
rand_chacha = "0.9"
bytemuck = "1"
flume = "0.11"
pollster = "0.4"
threadpool = "1"
wgpu = "*"

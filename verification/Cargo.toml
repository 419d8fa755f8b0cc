[package]
name = "seed_sampler"
version = "0.1.0"
edition = "2021"
publish = false

[dependencies]
rand = "0.8"
rand_chacha = "0.3"
sha2 = "0.10"
once_cell = "1"
cpal = "0.15"

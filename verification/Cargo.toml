[package]
name = "caesars_palace_nes"
version = "0.1.0"
edition = "2021"
publish = false

[dependencies]
arrayvec = "*"

[package]
name = "chip_bert"
version = "0.1.0"
edition = "2021"
publish = false

[dependencies]
rand = "*"
sdl2 = "*"
structopt = "*"

[package]
name = "rustgb"
version = "0.1.0"
edition = "2021"
publish = false

[dependencies]
time = "0.1"
getopts = "0.2"
sdl = "*"

[package]
name = "gif_probe"
version = "0.1.0"
edition = "2021"
publish = false

[dependencies]
gif = "*"
argh = "*"

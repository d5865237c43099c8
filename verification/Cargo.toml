[package]
name = "animator"
version = "0.1.0"
edition = "2021"
publish = false

[dependencies]
idgenerator = "*"
interpolation = "*"

[package]
name = "gelatin"
version = "0.1.0"
edition = "2021"
publish = false

[dependencies]
glium = "0.32"

[package]
name = "learnopengl_utils"
version = "0.1.0"
edition = "2021"
publish = false

[dependencies]
anyhow = "1"
gl = "0.14"
glutin = "0.29"
nalgebra = "0.32"

[package]
name = "ivrigst"
version = "0.1.0"
edition = "2021"
publish = false

[dependencies]
anyhow = "*"
gl = "*"
nalgebra = "*"
nalgebra-glm = "*"
notify = "*"
sdl2 = "*"
tobj = "*"

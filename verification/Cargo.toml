[package]
name = "pocket_dimension"
version = "0.1.0"
edition = "2021"
publish = false

[dependencies]
gl = "*"
glam = "*"
glfw = "*"
image = "*"
tobj = "*"
ordered-float = "*"

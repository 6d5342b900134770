[package]
name = "sliding_quad"
version = "0.1.0"
edition = "2021"
publish = false

[dependencies]
glium = "0.25"
image = "0.21"

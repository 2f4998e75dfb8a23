[package]
name = "math"
version = "0.1.0"
edition = "2021"
publish = false

[dependencies]
nalgebra = "*"
ordered-float = "*"
rand = "0.8"

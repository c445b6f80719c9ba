[package]
name = "fork_core"
version = "0.1.0"
edition = "2021"
publish = false

[dependencies]
image = "=0.25.10"
nphysics2d = "=0.24.0"
ncollide2d = "0.32"
nalgebra = "0.29"

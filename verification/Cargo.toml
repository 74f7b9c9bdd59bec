[package]
name = "spawner"
version = "0.1.0"
edition = "2021"
publish = false

[dependencies]
crossbeam = "0.7"
shrev = "1.1"
specs = "0.15"
nalgebra-glm = "0.4"

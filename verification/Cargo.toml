[package]
name = "player_digging"
version = "0.1.0"
edition = "2021"
publish = false

[dependencies]
smallvec = "1"
log = "0.4"
nalgebra-glm = "*"

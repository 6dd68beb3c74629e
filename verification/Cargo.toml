[package]
name = "clusterlab"
version = "0.1.0"
edition = "2021"
publish = false

[dependencies]
rand = "0.8"
voronoice = "0.2"
macroquad = "0.4.14"
miniquad = "0.4"
getrandom = { version = "0.2", features = ["custom"] }

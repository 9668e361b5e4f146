[package]
name = "hit_it"
version = "0.1.0"
edition = "2021"
publish = false

[dependencies]
instant = "0.1"
quicksilver = "0.4"
rodio = "0.17"

[package]
name = "raybench"
version = "0.1.0"
edition = "2021"

[dependencies]
indicatif = "*"

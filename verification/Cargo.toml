[package]
name = "fiximg"
version = "0.1.0"
edition = "2021"
publish = false

[dependencies]
blake3 = "*"
oxipng = "*"
clap = "*"
rayon = "*"

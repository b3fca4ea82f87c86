[package]
name = "autogram"
version = "0.1.0"
edition = "2021"
publish = false

[dependencies]
char-iter = "*"
rayon = "*"

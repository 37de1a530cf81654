[package]
name = "hvtag"
version = "0.1.0"
edition = "2021"
publish = false

[dependencies]
regex = "1"
unicode-normalization = "0.1"
dialoguer = "0.11"

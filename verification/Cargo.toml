[package]
name = "meteobar"
version = "0.1.0"
edition = "2021"
publish = false

[dependencies]
dirs = "5"
fs2 = "0.4"

[package]
name = "flann"
version = "0.1.0"
edition = "2021"
publish = false

[dependencies]
failure = "0.1"
flann-sys = "*"
generic-array = "0.14"
itertools = "*"

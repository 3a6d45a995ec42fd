[package]
name = "numbench"
version = "0.1.0"
edition = "2021"
publish = false

[dependencies]
fastrand = "=2.5.0"
rustc_apfloat = "*"

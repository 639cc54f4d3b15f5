[package]
name = "rowdec"
version = "0.1.0"
edition = "2021"
publish = false

[dependencies]
uuid = "*"
time = "0.1"

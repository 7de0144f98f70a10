[package]
name = "teehistorian_py"
version = "0.1.0"
edition = "2021"
publish = false

[dependencies]
teehistorian = "*"
uuid = "*"

[package]
name = "cmakr"
version = "0.1.0"
edition = "2021"
publish = false

[dependencies]
getopts = "*"
toml = "*"

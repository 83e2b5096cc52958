[package]
name = "dumpsys_rs"
version = "0.1.0"
edition = "2021"
publish = false

[dependencies]
rsbinder = "=0.11.0"
threadpool = "*"

[package]
name = "unlatex"
version = "0.1.0"
edition = "2021"
publish = false

[dependencies]
rquickjs = "0.1"
gumdrop = "*"

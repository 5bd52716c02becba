[package]
name = "mml"
version = "0.1.0"
edition = "2021"
publish = false

[dependencies]
dot = "*"
syntex_syntax = "0.59"
syntex_errors = "0.59"
walkdir = "*"

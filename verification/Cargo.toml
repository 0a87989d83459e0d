[package]
name = "khoj"
version = "0.1.0"
edition = "2021"
publish = false

[dependencies]
regex = "1"
clap = "3"
walkdir = "2"

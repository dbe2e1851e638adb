[package]
name = "mkmod"
version = "0.1.0"
edition = "2021"

[dependencies]
regex = "1"
tempfile = "3"
clap = { version = "4", features = ["cargo"] }

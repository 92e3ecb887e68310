[package]
name = "rfe"
version = "0.1.0"
edition = "2021"
publish = false

[dependencies]
clap = { version = "4", features = ["derive", "cargo"] }
git2 = "*"
include_dir = "0.7"
tempfile = "3"
url = "2"

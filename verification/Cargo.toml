[package]
name = "cbuild"
version = "0.1.0"
edition = "2021"
publish = false

[dependencies]
shellexpand = "*"
thiserror = "*"

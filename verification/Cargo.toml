[package]
name = "spice"
version = "0.1.0"
edition = "2021"
publish = false

[dependencies]
anyhow = "*"
crossterm = "*"
portable-pty = "*"
syntect = "*"

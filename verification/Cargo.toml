[package]
name = "breathe"
version = "0.1.0"
edition = "2021"
publish = false

[dependencies]
crossterm = "*"
glob = "*"
hunspell-rs = "*"
inquire = "*"
once_cell = "*"
regex = "*"
spinners = "*"
tabled = "*"

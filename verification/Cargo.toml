[package]
name = "paccat_core"
version = "0.1.0"
edition = "2021"
publish = false

[dependencies]
alpm = "*"
alpm-utils = "*"
anyhow = "*"
pacmanconf = "*"

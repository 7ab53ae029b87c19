[package]
name = "pgtemp"
version = "0.1.0"
edition = "2021"

[dependencies]
anyhow = "1"
argh = "0.1"
fs-err = "2"

[package]
name = "x52_spotify"
version = "0.1.0"
edition = "2021"
publish = false

[dependencies]
crossbeam = "=0.7.3"
signal-hook = "=0.1.17"
xcb = "=0.9.0"

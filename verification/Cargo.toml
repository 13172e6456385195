[package]
name = "numbox"
version = "0.1.0"
edition = "2021"
publish = false

[dependencies]
numbat = "=1.16.0"
itertools = "=0.14.0"
dirs = "=6.0.0"
terminal_size = "=0.4.4"
dioxus = "=0.6.3"

[dev-dependencies]
tempfile = "=3.27.0"

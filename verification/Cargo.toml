[package]
name = "bingrep"
version = "0.1.0"
edition = "2021"
publish = false

[dependencies]
goblin = "*"
rustc-demangle = "0.1"
scroll = "*"
colored = "*"
structopt = "0.3"
prettytable-rs = "*"

[package]
name = "alacritty"
version = "0.1.0"
edition = "2021"
publish = false

[dependencies]
vte = "0.3"
crossbeam-channel = "0.3"
clap = "2"
log = "0.4"

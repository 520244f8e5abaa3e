[package]
name = "cosmic"
version = "0.1.0"
edition = "2021"
publish = false

[dependencies]
iced_core = "*"
raw-window-handle = "0.6"

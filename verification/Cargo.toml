[package]
name = "window_clipboard"
version = "0.1.0"
edition = "2021"
publish = false

[dependencies]
raw-window-handle = "0.5"
smithay-clipboard = "0.7"

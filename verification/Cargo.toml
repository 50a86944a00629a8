[package]
name = "clipfixd"
version = "0.1.0"
edition = "2021"
publish = false

[dependencies]
anyhow = "*"
tempfile = "*"
timeout-readwrite = "*"
url = "*"
wl-clipboard-rs = "*"
x11-clipboard = "*"
wayland-clipboard-listener = "*"

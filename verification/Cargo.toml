[package]
name = "tytimer"
version = "0.1.0"
edition = "2021"
publish = false

[dependencies]
anyhow = "*"
clap = { version = "*", features = ["derive"] }
glib = "*"
gstreamer = "*"
gstreamer-app = "*"
gtk4 = "*"
gtk4-layer-shell = "*"
ksni = "*"
libc = "*"

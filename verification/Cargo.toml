[package]
name = "acreetionos"
version = "0.1.0"
edition = "2021"
publish = false

[dependencies]
gtk4 = "=0.9.7"
libadwaita = "=0.7.2"
crossfont = "=0.8.1"
libc = "=0.2.191"
log = "=0.4.35"
vte = { version = "0.15", features = ["ansi"] }

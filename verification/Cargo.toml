[package]
name = "sema"
version = "0.1.0"
edition = "2021"
publish = false

[dependencies]
regex-lite = "0.1"
battery = "0.7"
gdk = "0.18"
gtk = "0.18"
gtk-layer-shell = "0.8"

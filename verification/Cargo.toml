[package]
name = "mmsim"
version = "0.1.0"
edition = "2021"
publish = false

[dependencies]
gio = "0.15"
glib = "0.15"
gtk = "0.15"
tempfile = "3"

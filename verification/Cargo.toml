[package]
name = "unit_converter"
version = "0.1.0"
edition = "2021"

[dependencies]
regex = "1"
glib = "0.10"
gtk = "0.9"
relm = "0.20"
relm-derive = "0.20"

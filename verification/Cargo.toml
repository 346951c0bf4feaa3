[package]
name = "patina_components"
version = "0.1.0"
edition = "2021"
publish = false

[dependencies]
scroll = "=0.13.0"
hidparser = "*"

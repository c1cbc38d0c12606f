[package]
name = "planiscope"
version = "0.1.0"
edition = "2021"
publish = false

[dependencies]
fidget = "0.2"
spatialtree = "*"

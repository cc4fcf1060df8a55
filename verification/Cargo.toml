[package]
name = "hover_render"
version = "0.1.0"
edition = "2021"
publish = false

[dependencies]
either = "1"
itertools = "0.10"

[package]
name = "kuzu"
version = "0.1.0"
edition = "2021"
publish = false

[dependencies]
cxx = "1.0"
time = "0.3"
uuid = "1"

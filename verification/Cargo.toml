[package]
name = "flavortext"
version = "0.1.0"
edition = "2021"
publish = false

[dependencies]
rand = "0.8"
string-builder = "0.2"
colored = "2"

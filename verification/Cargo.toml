[package]
name = "prefix_parse"
version = "0.1.0"
edition = "2021"
publish = false

[dependencies]
num-traits = "0.2"
tap = "1"
thiserror = "2"

[package]
name = "avm2_method"
version = "0.1.0"
edition = "2021"
publish = false

[dependencies]
swf = "*"
gc-arena = "*"
url = "2"
tracing = "0.1"

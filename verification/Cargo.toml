[package]
name = "enigo_js"
version = "0.1.0"
edition = "2021"
publish = false

[dependencies]
enigo = "*"
napi = "*"
napi-derive = "*"

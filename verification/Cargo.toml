[package]
name = "ream_playground"
version = "0.1.0"
edition = "2021"
publish = false

[dependencies]
ream = "=0.3.2"
wasm-bindgen = "=0.2.129"
yew = "=0.17.4"

[package]
name = "shimgen"
version = "0.1.0"
edition = "2021"
publish = false

[dependencies]
anyhow = "*"
log = "*"
swc_common = "*"
swc_ecma_ast = "*"
swc_ecma_parser = "*"
wasm-encoder = "*"

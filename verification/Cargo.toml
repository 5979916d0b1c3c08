[package]
name = "deli"
version = "0.2.0"
edition = "2021"
publish = false

[dependencies]
ident_case = "1"
idb = "*"
serde = { version = "1", features = ["derive"] }
serde-wasm-bindgen = "*"
wasm-bindgen = "*"
thiserror = "*"
darling = "*"
syn = "2"
quote = "1"
proc-macro2 = "1"

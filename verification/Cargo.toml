[package]
name = "opencall_mls"
version = "0.1.0"
edition = "2021"
publish = false

[dependencies]
openmls = "*"
openmls_basic_credential = "*"
openmls_rust_crypto = "*"
openmls_traits = "*"
serde = { version = "1", features = ["derive"] }
serde-wasm-bindgen = "*"
thiserror = "*"
wasm-bindgen = "*"
js-sys = "*"

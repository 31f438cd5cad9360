[package]
name = "wallet_connect"
version = "0.1.0"
edition = "2021"
publish = false

[dependencies]
yew = { version = "0.21", features = ["csr"] }
web3 = { version = "0.19", default-features = false, features = ["eip-1193"] }
wasm-bindgen-futures = "0.4"

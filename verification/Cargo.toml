[package]
name = "openvino"
version = "0.1.0"
edition = "2021"
publish = false

[dependencies]
openvino-sys = { version = "*", default-features = false, features = ["runtime-linking"] }
thiserror = "1"

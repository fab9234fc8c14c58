[package]
name = "llama"
version = "0.1.0"
edition = "2021"
publish = false

[dependencies]
derive_more = "0.99"
llama-sys = "*"
thiserror = "1"

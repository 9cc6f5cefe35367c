[package]
name = "function_call"
version = "0.1.0"
edition = "2021"
publish = false

[dependencies]
anymap = "0.12.1"
thiserror = "1"

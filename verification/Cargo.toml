[package]
name = "error_code"
version = "0.1.0"
edition = "2021"
publish = false

[dependencies]
base64 = "0.22"
darling = "0.20"
proc-macro2 = "1"
quote = "1"
syn = "2"

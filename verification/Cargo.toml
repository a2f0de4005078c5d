[package]
name = "apdu"
version = "0.4.0"
edition = "2021"
publish = false

[dependencies]
proc-macro2 = "1"
quote = "1"
syn = "1"
thiserror = "1"

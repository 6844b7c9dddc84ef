[package]
name = "yaag"
version = "0.1.0"
edition = "2021"
publish = false

[dependencies]
futures-core = "*"
syn = { version = "*", features = ["full"] }
quote = "*"
proc-macro2 = "*"

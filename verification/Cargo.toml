[package]
name = "builder"
version = "0.1.0"
edition = "2021"

[dependencies]
proc-macro2 = "=1.0.107"
quote = "=1.0.47"
syn = "=1.0.109"
unicode-ident = "=1.0.27"

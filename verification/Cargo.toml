[package]
name = "enum_derived"
version = "0.1.0"
edition = "2021"
publish = false

[dependencies]
rand = "0.8"
syn = "1"
quote = "1"
proc-macro2 = "1"

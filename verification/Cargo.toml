[package]
name = "typesum"
version = "0.1.0"
edition = "2021"
publish = false

[dependencies]
convert_case = "*"
syn = "2"
quote = "1"
proc-macro2 = "1"

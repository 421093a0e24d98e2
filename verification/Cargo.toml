[package]
name = "iter_scan"
version = "0.1.0"
edition = "2021"
publish = false

[dependencies]
replace_with = "*"

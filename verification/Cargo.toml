[package]
name = "mpl_header_lint"
version = "0.1.0"
edition = "2021"
publish = false

[dependencies]
strsim = "*"

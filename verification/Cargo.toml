[package]
name = "dlpackrs"
version = "0.2.1"
edition = "2021"
publish = false

[dependencies]
enumn = "0.1"
pin-project = "1"
thiserror = "1"

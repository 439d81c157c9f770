[package]
name = "nrv_rs"
version = "0.1.0"
edition = "2021"
publish = false

[dependencies]
diffy = "*"
hex = "0.4"
sha2 = "0.10"
thiserror = "1"

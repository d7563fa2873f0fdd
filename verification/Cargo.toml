[package]
name = "fvm_message"
version = "0.1.0"
edition = "2021"
publish = false

[dependencies]
serde = "*"
fvm_ipld_encoding = "*"
fvm_shared = "*"

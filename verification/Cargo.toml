[package]
name = "actor_shared"
version = "0.1.0"
edition = "2021"
publish = false

[dependencies]
fvm_ipld_encoding = "*"

[dev-dependencies]
fvm_shared = "*"

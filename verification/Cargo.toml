[package]
name = "qubit-codec"
version = "0.14.0"
edition = "2021"
publish = false

[dependencies]
qubit-io = "*"
qubit-utils = "*"
thiserror = "*"
inventory = "*"

[package]
name = "signalmux"
version = "0.1.0"
edition = "2021"
publish = false

[dependencies]
ctrlc = "*"
crossbeam-channel = "*"
signal-hook = "*"
csv = "*"
serde_json = "*"

[package]
name = "serde_via"
version = "0.1.0"
edition = "2021"
publish = false

[dependencies]
hex = "*"
prost = "*"
displaydoc = "*"
thiserror = "*"

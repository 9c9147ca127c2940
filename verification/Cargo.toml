[package]
name = "metadata_unpacker"
version = "0.1.0"
edition = "2021"
publish = false

[dependencies]
anyhow = "1"
log = "0.4"
regex = "1"
simplelog = "*"

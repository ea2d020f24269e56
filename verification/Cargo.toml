[package]
name = "embedded_storage_file"
version = "0.1.0"
edition = "2021"
publish = false

[dependencies]
embedded-storage = "*"
embedded-storage-async = "*"
memmap2 = "*"

[dev-dependencies]
rand = "*"

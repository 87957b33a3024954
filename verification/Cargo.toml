[package]
name = "sparse_fetch"
version = "0.1.0"
edition = "2021"
publish = false

[dependencies]
clap = { version = "3", features = ["derive"] }
execute = "0.2"
fs_extra = "1"

[package]
name = "vtab_adapter"
version = "0.1.0"
edition = "2021"
publish = false

[dependencies]
libsqlite3-sys = "*"

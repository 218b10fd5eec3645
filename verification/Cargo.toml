[package]
name = "redb_bench"
version = "0.1.0"
edition = "2021"
publish = false

[dependencies]
argh = "0.1"
rand = "0.9"
redb = "2"

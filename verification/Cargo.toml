[package]
name = "tas_launcher"
version = "0.1.0"
edition = "2021"
publish = false

[dependencies]
camino = "1"
sha1_smol = "1"

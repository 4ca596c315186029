[package]
name = "conclave_server"
version = "0.1.0"
edition = "2021"
publish = false

[dependencies]
conclave-room = "*"
conclave-types = "*"
unique-id-collection = "*"

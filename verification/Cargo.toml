[package]
name = "steel_core"
version = "0.1.0"
edition = "2021"
publish = false

[dependencies]
shared_vector = "*"
allocator-api2 = "*"

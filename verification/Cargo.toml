[package]
name = "libfabric"
version = "0.1.0"
edition = "2021"
publish = false

[package]
name = "libtock_apis"
version = "0.1.0"
edition = "2021"
publish = false

[dependencies]
libm = "0.2"
embedded-hal = "1.0"

[package]
name = "tiny_logger"
version = "0.1.0"
edition = "2021"
publish = false

[dependencies]
yansi = "1"

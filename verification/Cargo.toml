[package]
name = "os3"
version = "0.1.0"
edition = "2021"
publish = false

[dependencies]
riscv = "*"
log = "0.4"
lazy_static = "1.4"

[package]
name = "tensor_backend"
version = "0.1.0"
edition = "2021"
publish = false

[dependencies]
num-traits = "0.2"
once_cell = "1"
parking_lot = "0.12"
type-map = "0.5"

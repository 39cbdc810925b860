[package]
name = "renardo_ext"
version = "0.1.0"
edition = "2021"
publish = false

[dependencies]
rosc = "*"
once_cell = "*"
parking_lot = "*"

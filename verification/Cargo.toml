[package]
name = "uify"
version = "0.1.0"
edition = "2021"
publish = false

[dependencies]
rtrb = "*"
nalgebra = "*"
rosc = "*"
thiserror = "*"

[package]
name = "nexus"
version = "0.1.0"
edition = "2021"
publish = false

[dependencies]
nalgebra = "0.32"
ndarray = "=0.15.6"
parking_lot = "=0.12.5"
rand = "=0.8.8"
rand_distr = "0.4"
special = "*"
thiserror = "=1.0.69"

[package]
name = "linear_curve_fit"
version = "0.1.0"
edition = "2021"
publish = false

[dependencies]
anyhow = "*"
nalgebra = "*"
thiserror = "*"

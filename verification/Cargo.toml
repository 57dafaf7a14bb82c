[package]
name = "las_crs"
version = "0.1.0"
edition = "2021"
publish = false

[dependencies]
las = "*"
log = "*"
thiserror = "*"

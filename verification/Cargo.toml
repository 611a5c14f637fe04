[package]
name = "h2o_datagen"
version = "0.1.0"
edition = "2021"
publish = false

[dependencies]
rand = "=0.9.5"
rand_chacha = "=0.9.0"
arrow = { version = "56", default-features = false, features = ["pyarrow"] }
pyo3 = ">=0.21"

[package]
name = "sparql_dataset"
version = "0.1.0"
edition = "2021"
publish = false

[dependencies]
lasso = "*"

[package]
name = "delta_scan"
version = "0.1.0"
edition = "2021"
publish = false

[dependencies]
polars = { version = "=0.41.3", default-features = false, features = ["lazy", "parquet", "cloud", "diagonal_concat"] }
polars-lazy = { version = "=0.41.3", default-features = false, features = ["parquet", "cloud", "diagonal_concat"] }
tokio = { version = "*", default-features = false, features = ["rt-multi-thread"] }

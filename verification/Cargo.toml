[package]
name = "parquet_scan"
version = "0.1.0"
edition = "2021"
publish = false

[dependencies]
arrow2 = { version = "0.13", features = ["io_parquet"] }
polars-core = "0.23"
rayon = "1"

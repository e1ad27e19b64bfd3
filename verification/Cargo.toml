[package]
name = "expr_schema"
version = "0.1.0"
edition = "2021"
publish = false

[dependencies]
polars-core = { version = "0.34", default-features = false, features = ["dtype-i8", "dtype-i16", "dtype-u8", "dtype-u16", "dtype-date", "dtype-datetime", "dtype-duration", "dtype-time", "dtype-array", "dtype-categorical", "dtype-struct"] }
libloading = "0.8"

[package]
name = "ssz_test_gen"
version = "0.1.0"
edition = "2021"
publish = false

[dependencies]
convert_case = "*"
hex = "*"
num-bigint = "*"
serde_yaml = "*"

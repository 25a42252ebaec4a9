[package]
name = "omx"
version = "0.1.0"
edition = "2021"
publish = false

[dependencies]
ruint = "=1.21.1"
alloy-primitives = "=0.7.6"
alloy-sol-types = "=0.7.6"

[package]
name = "rmm_curves"
version = "0.1.0"
edition = "2021"
publish = false

[dependencies]
statrs = "=0.16.1"
itertools-num = "=0.1.3"

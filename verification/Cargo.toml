[package]
name = "jrsonnet_typed"
version = "0.1.0"
edition = "2021"
publish = false

[dependencies]
jrsonnet-interner = "=0.5.0-pre98"
jrsonnet-types = "=0.5.0-pre98"

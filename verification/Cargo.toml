[package]
name = "wasmi-runtime"
version = "0.1.0"
edition = "2021"
publish = false

[dependencies]
bech32 = "0.7.2"
log = "0.4"
wasmi = "0.6.2"

[package]
name = "cosmwasm_vm"
version = "0.1.0"
edition = "2021"
publish = false

[dependencies]
wasmer = "=7.0.1"
wasmer-middlewares = "=7.0.1"

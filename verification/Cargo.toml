[package]
name = "sgx_std"
version = "0.1.0"
edition = "2021"
publish = false

[dependencies]
mc-sgx-tstdc = "=0.12.0"
mc-sgx-core-types = "=0.12.0"
mc-sgx-core-sys-types = "=0.12.0"
mc-sgx-util = "=0.12.0"
mc-sgx-tservice-sys = "=0.12.0"
once_cell = "=1.21.4"

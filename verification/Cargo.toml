[package]
name = "riscv_interrupt"
version = "0.1.0"
edition = "2021"
publish = false

[dependencies]
riscv-atomic-emulation-trap = "*"

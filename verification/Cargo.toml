[package]
name = "hypercraft"
version = "0.1.0"
edition = "2021"
publish = false

[dependencies]
riscv = "=0.10.1"
riscv-decode = "=0.2.3"
sbi-rt = { version = "=0.0.4", features = ["integer-impls"] }

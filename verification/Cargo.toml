[package]
name = "game-of-life"
version = "0.1.0"
edition = "2021"
publish = false

[dependencies]
k210-hal = "=0.1.0"
riscv-rt = "=0.6.2"

[package]
name = "mips_witness"
version = "0.1.0"
edition = "2021"
publish = false

[dependencies]
anyhow = "=1.0.104"
log = "=0.4.34"
plonky2 = "=0.2.2"

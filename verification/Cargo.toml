[package]
name = "axi_dma_cat"
version = "0.1.0"
edition = "2021"
publish = false

[dependencies]
comp-cat-rs = "*"
rust-hdl = "*"

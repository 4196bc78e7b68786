[package]
name = "nes_test_harness"
version = "0.1.0"
edition = "2021"
publish = false

[dependencies]
tudelft-nes-ppu = "*"

[package]
name = "hal-mik32"
version = "0.1.0"
edition = "2021"
publish = false

[dependencies]
mik32-pac = "*"
critical-section = "1"
embedded-dma = "0.2"
embedded-hal = "1"
embedded-hal-nb = "1"
fugit = "0.3"

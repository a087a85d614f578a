[package]
name = "l3gd20"
version = "0.1.0"
edition = "2021"
publish = false

[dependencies]
embedded-hal = "0.2"
chip-select = "*"
l3gd20-registers = "*"

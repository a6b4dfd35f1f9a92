[package]
name = "gastly"
version = "0.1.0"
edition = "2021"
publish = false

[dependencies]
hash40 = "1.3.1"
once_cell = "1.21.4"
parking_lot = "0.12.5"
smash = "=0.0.0-alpha.4"
skyline = "0.6.0"

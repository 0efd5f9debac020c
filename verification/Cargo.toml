[package]
name = "jtag_tap"
version = "0.1.0"
edition = "2021"
publish = false

[dependencies]
ftdi-mpsse = "*"
libftd2xx = "*"

[package]
name = "irdopto_im12xx"
version = "0.1.0"
edition = "2021"
publish = false

[dependencies]
rmodbus = "*"
fixedvec = "*"

[package]
name = "l3g4200d"
version = "0.1.0"
edition = "2021"

[dependencies]
i2cdev = "*"
thiserror = "1"

[package]
name = "stm32f40x_hal"
version = "0.1.0"
edition = "2021"
publish = false

[dependencies]
stm32f40x = "*"
embedded-hal = "0.2"
cast = "0.2"

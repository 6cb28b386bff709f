[package]
name = "systime"
version = "0.1.0"
edition = "2021"
publish = false

[dependencies]
cortex-m = "0.7"
cortex-m-rt = "0.7"
stm32f1 = { version = "0.15", features = ["stm32f103"] }

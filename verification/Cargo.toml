[package]
name = "telemetry_link"
version = "0.1.0"
edition = "2021"
publish = false

[dependencies]
heapless = "0.8"
cortex-m = "0.7"
cortex-m-rt = "0.7"
panic-halt = "0.2"
stm32f4xx-hal = { version = "0.20", features = ["stm32f405"] }

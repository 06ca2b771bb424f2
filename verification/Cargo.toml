[package]
name = "imu_fsr"
version = "0.1.0"
edition = "2021"
publish = false

[dependencies]
stm32g4 = { version = "0.15", features = ["stm32g431", "rt"] }
cortex-m = "0.7"
cortex-m-rt = "0.7"
defmt = "0.3"
defmt-rtt = "0.4"
panic-halt = "0.2"

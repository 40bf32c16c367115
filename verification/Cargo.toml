[package]
name = "co2"
version = "0.1.0"
edition = "2021"
publish = false

[dependencies]
cortex-m-rt = "0.7"
defmt = "0.3"
embedded-hal = "0.2"
nb = "1"
nrf52840-hal = "0.16"

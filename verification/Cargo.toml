[package]
name = "ercp_basic_example"
version = "0.1.0"
edition = "2021"
publish = false

[dependencies]
defmt = "*"
defmt-rtt = "*"
panic-probe = { version = "*", features = ["print-defmt"] }
cortex-m-rtic = "*"
stm32l4xx-hal = { version = "*", features = ["rt", "stm32l476"] }
systick-monotonic = "*"

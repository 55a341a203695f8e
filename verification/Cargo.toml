[package]
name = "m5stack_control"
version = "0.1.0"
edition = "2021"
publish = false

[dependencies]
anyhow = "1"
display-interface-spi = "0.5"
embedded-graphics = "0.8"
embedded-svc = "0.27"
esp-idf-hal = "0.43"
esp-idf-svc = "0.48"
esp-idf-sys = "0.34"
ili9341 = "0.6"

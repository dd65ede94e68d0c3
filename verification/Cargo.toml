[package]
name = "tube_lamp"
version = "0.1.0"
edition = "2021"
publish = false

[dependencies]
dotenv_codegen = "=0.15.0"
embassy-futures = "=0.1.2"
esp-idf-svc = "0.51"
log = "=0.4.35"
once_cell = "=1.21.4"
smart-leds = "=0.4.0"
smart-leds-trait = "=0.3.2"
ws2812-esp32-rmt-driver = "0.13"

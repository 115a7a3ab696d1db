[package]
name = "color_follower"
version = "0.1.0"
edition = "2021"
publish = false

[dependencies]
esp-idf-hal = "*"
esp-idf-svc = "*"
log = "*"
smart-leds = "*"
tcs3472 = "*"
ws2812-spi = "*"

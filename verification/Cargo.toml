[package]
name = "smart_leds_fx"
version = "0.3.0"
edition = "2021"
publish = false

[dependencies]
smart-leds-trait = "0.3"
fastrand = "2"
lib8tion = "*"
color8 = "*"
heapless = "0.8"

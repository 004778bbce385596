[package]
name = "rgbcal"
version = "0.1.0"
edition = "2021"
publish = false

[dependencies]
embassy-executor = { version = "=0.7.0", features = ["arch-spin", "executor-thread"] }
embassy-futures = "=0.1.2"
embassy-sync = "=0.7.2"
embassy-time = "=0.4.0"
microbit-bsp = "=0.4.0"
num-traits = { version = "=0.2.19", default-features = false }
panic-rtt-target = "=0.2.0"
rtt-target = "=0.6.2"

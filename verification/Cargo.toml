[package]
name = "rgbcal"
version = "0.1.0"
edition = "2021"
publish = false

[dependencies]
embassy-executor = { version = "=0.5.1", features = ["arch-std", "executor-thread"] }
embassy-futures = "=0.1.2"
embassy-sync = { version = "=0.5.0", features = ["std"] }
embassy-time = "=0.3.2"
microbit-bsp = "=0.3.0"
rtt-target = "=0.5.0"

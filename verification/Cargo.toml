[package]
name = "segment_clock"
version = "0.1.0"
edition = "2021"
publish = false

[dependencies]
defmt = "=1.2.0"
defmt-rtt = "=1.3.1"
embassy-executor = { version = "=0.10.0", features = ["defmt", "executor-thread", "platform-std"] }
embassy-futures = "=0.1.2"
embassy-stm32 = { version = "=0.6.0", features = ["defmt", "exti", "stm32u545re", "time-driver-any"] }
embassy-sync = { version = "=0.8.0", features = ["defmt", "std"] }
embassy-time = { version = "=0.5.1", features = ["defmt", "tick-hz-1_000_000"] }
embassy-usb = { version = "=0.6.0", features = ["defmt"] }
heapless = "=0.8.0"
panic-probe = "=1.0.0"

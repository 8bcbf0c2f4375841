[package]
name = "hid_bridge"
version = "0.1.0"
edition = "2021"
publish = false

[dependencies]
defmt = "=0.3.101"
defmt-rtt = "=0.4.2"
embassy-executor = { version = "=0.7.0", features = ["arch-std", "executor-thread"] }
embassy-futures = "=0.1.2"
embassy-rp = { version = "=0.3.1", features = ["rp2040", "time-driver"] }
embassy-usb = "=0.4.0"
embedded-io-async = "=0.6.1"
heapless = "=0.8.0"
panic-probe = "=0.3.2"
postcard = { version = "=1.1.3", features = ["alloc"] }
static_cell = "=2.1.1"
usbd-hid = "=0.8.2"

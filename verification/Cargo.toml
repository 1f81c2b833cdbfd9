[package]
name = "pico"
version = "0.1.0"
edition = "2021"
publish = false

[dependencies]
cfg-if = "=1.0.5"
cortex-m-rt = "=0.7.7"
defmt = "=1.2.0"
defmt-rtt = "=1.3.1"
display-interface = "=0.5.0"
display-interface-spi = "=0.5.0"
embassy-executor = { version = "=0.9.1", features = ["arch-std", "executor-thread"] }
embassy-futures = "=0.1.2"
embassy-net = { version = "=0.9.1", features = ["udp", "proto-ipv4", "medium-ethernet"] }
embassy-rp = { version = "=0.10.0", features = ["rp2040", "time-driver", "critical-section-impl"] }
embassy-sync = "=0.8.0"
embassy-time = "=0.5.1"
embassy-usb = "=0.6.0"
embassy-usb-logger = "=0.6.0"
embedded-graphics = "=0.8.1"
embedded-hal = "=1.0.0"
embedded-hal-async = "=1.0.0"
embedded-hal-bus = { version = "=0.3.0", features = ["async"] }
heapless = { version = "=0.9.3", features = ["serde"] }
leasehund = "=0.8.0"
log = "=0.4.35"
panic-probe = "=1.0.0"
postcard = { version = "=1.1.3", features = ["alloc"] }
serde = { version = "=1.0.229", default-features = false, features = ["alloc", "derive"] }
ssd1306 = { version = "=0.10.0", features = ["async"] }
static_cell = "=2.1.1"
tokio = { version = "=1.54.1", features = ["macros", "net", "rt-multi-thread", "time"] }

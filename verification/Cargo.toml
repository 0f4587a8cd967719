[package]
name = "pico_weather"
version = "0.1.0"
edition = "2021"
publish = false

[dependencies]
heapless = "=0.8.0"
serde = { version = "=1.0.229", default-features = false, features = ["derive"] }
serde-json-core = "=0.6.0"
embedded-graphics = "=0.8.2"
profont = "=0.7.0"
embedded-hal = "=1.0.0"
embedded-io-async = "=0.7.0"
embassy-time = "=0.5.1"
embassy-futures = "=0.1.2"
embassy-net = { version = "=0.9.1", features = ["tcp", "udp", "dns", "dhcpv4", "proto-ipv4"] }
embassy-executor = { version = "=0.9.1", features = ["arch-std", "executor-thread"] }
embassy-rp = { version = "=0.10.0", features = ["rp2040", "time-driver"] }
cyw43 = "=0.7.0"
cyw43-pio = "=0.10.0"
defmt = "=1.2.0"
defmt-rtt = "=1.3.1"
panic-probe = "=1.0.0"
static_cell = "=2.1.1"

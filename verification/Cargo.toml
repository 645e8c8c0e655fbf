[package]
name = "cloudy_with_a_chance_of_rust"
version = "0.1.0"
edition = "2021"
publish = false

[dependencies]
serde = { version = "=1.0.229", features = ["derive"] }
serde_json = "=1.0.154"
reqwless = { version = "=0.14.0", default-features = false }
embedded-graphics = "=0.8.2"
tinybmp = "=0.6.0"
epd-waveshare = "=0.6.0"
embedded-hal = "=1.0.0"
embedded-hal-bus = "=0.3.0"
embassy-time = "=0.5.1"
embassy-net = { version = "=0.9.1", features = ["dhcpv4", "tcp", "dns", "proto-ipv4", "medium-ethernet"] }
embassy-executor = "=0.10.0"
static_cell = "=2.1.1"
rtt-target = "=0.6.2"
esp-hal = "=1.1.2"
esp-radio = "=0.18.0"
esp-rtos = "=0.3.0"
esp-alloc = "=0.11.0"
esp-bootloader-esp-idf = "=0.6.0"

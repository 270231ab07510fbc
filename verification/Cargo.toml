[package]
name = "airgradient"
version = "0.1.0"
edition = "2021"
publish = false

[dependencies]
gas-index-algorithm = "=0.1.3"
embassy-executor = "0.9"
embassy-net = { version = "=0.9.1", features = ["proto-ipv4", "dhcpv4", "tcp", "medium-ethernet"] }
embassy-sync = "=0.8.0"
embassy-time = "=0.5.1"
embedded-hal-async = "=1.0.0"
embedded-io-async = "=0.7.0"
defmt = "1"
heapless = "=0.9.3"
picoserve = { version = "=0.20.1", features = ["embassy"] }
static_cell = "=2.1.1"
esp-alloc = "0.9"
esp-backtrace = "0.18"
esp-bootloader-esp-idf = "0.4"
esp-hal = "~1.0.0"
esp-println = "0.16"
esp-radio = "0.17"
esp-rtos = "0.2"

[package]
name = "esp32_mipidsi_clock"
version = "0.1.0"
edition = "2021"
publish = false

[dependencies]
chrono = { version = "0.4", default-features = false }
chrono-tz = { version = "0.10", default-features = false }
embassy-sync = "0.6"
debouncr = "0.2"
spa = "0.5"
micromath = "2"
tiny-skia = "0.11"
sntpc = "0.5"
embassy-time = "0.4"
embassy-futures = "0.1"
embassy-executor = "0.7"
embassy-net = { version = "0.6", features = ["udp", "dns", "dhcpv4", "medium-ethernet", "proto-ipv4"] }
smoltcp = { version = "0.12", default-features = false }
static_cell = "2"
log = "0.4"
mipidsi = "0.9"
embedded-graphics = "0.8"
embedded-hal-bus = "0.3"
ds1307 = "0.6"
ds323x = "0.6"

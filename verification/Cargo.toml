[package]
name = "ntp_clock"
version = "0.1.0"
edition = "2021"
publish = false

[dependencies]
chrono = { version = "0.4", default-features = false }
ntp-nostd = "*"
esp-wifi = "0.2"
esp32-hal = { version = "0.17", default-features = false }
esp-backtrace = { version = "0.13", features = ["esp32", "panic-handler", "exception-handler", "println"] }
esp-println = { version = "0.10", features = ["esp32"] }
smoltcp = { version = "0.10", default-features = false, features = ["proto-ipv4", "socket-udp", "medium-ethernet"] }
embedded-svc = { version = "0.26", default-features = false }
embedded-graphics = "0.8"
ssd1306 = "0.8"
heapless = "0.8"

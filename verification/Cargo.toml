[package]
name = "volumize"
version = "0.1.0"
edition = "2021"
publish = false

[dependencies]
heapless = "=0.8.0"
embedded-graphics = "=0.8.2"
serde = { version = "=1.0.229", default-features = false, features = ["derive", "alloc"] }
ciborium = "0.2"
critical-section = "=1.2.0"
embassy-sync = "=0.8.0"
embassy-futures = "=0.1.2"
embassy-executor = "=0.10.0"
embassy-usb = "=0.6.0"
static_cell = "=2.1.1"
defmt = "=1.2.0"
ufmt = "=0.2.0"
display-interface = "=0.5.0"
ssd1306 = "=0.10.0"
esp-hal = "=1.2.2"
esp-rtos = "=0.4.0"
esp-alloc = "=0.11.0"
esp-backtrace = "=0.20.0"
esp-println = "=0.18.0"
esp-bootloader-esp-idf = "=0.6.0"
avr-device = "=0.9.0"

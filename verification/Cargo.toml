[package]
name = "peach8"
version = "0.1.0"
edition = "2021"
publish = false

[dependencies]
bitvec = "=0.19.6"
heapless = "=0.5.6"
embedded-graphics = "=0.6.2"
nanorand = "=0.5.2"
log = "0.4"
cortex-m = "=0.6.7"
cortex-m-rt = "=0.6.15"
cortex-m-log = { version = "=0.6.2", features = ["itm", "semihosting", "log-integration"] }
stm32f3xx-hal = { version = "=0.5.0", features = ["stm32f303xc", "rt"] }
ssd1306 = "=0.4.1"
f3 = "0.6"

[package]
name = "tilt_mouse"
version = "0.1.0"
edition = "2021"
publish = false

[dependencies]
cortex-m = "=0.6.7"
cortex-m-rt = "=0.6.15"
lsm303dlhc = "=0.2.0"
panic-semihosting = "=0.5.6"
stm32f3xx-hal = { version = "=0.4.3", features = ["rt", "stm32f303xc", "stm32-usbd"] }
usb-device = "=0.2.9"
usbd-hid-device = "=0.1.1"

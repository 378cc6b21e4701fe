[package]
name = "stm32f4ve"
version = "0.1.0"
edition = "2021"
publish = false

[dependencies]
cortex-m = "0.6"
cortex-m-rt = "0.6"
panic-halt = "0.2"
stm32f4xx-hal = { version = "0.9", features = ["rt", "stm32f407", "usb_fs", "sdio"] }
embedded-graphics = "0.6"
ssd1306 = "0.5"
usb-device = "0.2"
usbd_scsi = "0.1"
usbd_mass_storage = "0.1"

[package]
name = "dual_ym2149"
version = "0.1.0"
edition = "2021"
publish = false

[dependencies]
cortex-m = "=0.7.10"
cortex-m-rt = "=0.7.7"
defmt-rtt = "=1.3.1"
embedded-alloc = "0.6"
embedded-hal = "=1.0.0"
micromath = "=2.1.0"
panic-halt = "=1.0.0"
rp2040-boot2 = "=0.3.0"
rp2040-hal = { version = "=0.12.0", features = ["rt", "critical-section-impl"] }
usb-device = "=0.3.2"
usbd-midi = "=0.5.1"

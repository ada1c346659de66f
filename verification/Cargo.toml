[package]
name = "tock_bootloader"
version = "0.1.0"
edition = "2021"
publish = false

[dependencies]
crc = "1"
tockloader-proto = "*"
embedded-serial = "*"
embedded-hal = "0.2"
lm4f120 = "*"

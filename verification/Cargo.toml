[package]
name = "rfid_rc522"
version = "0.1.0"
edition = "2021"
publish = false

[dependencies]
embedded-hal = "=1.0.0"
ufmt = "=0.2.0"

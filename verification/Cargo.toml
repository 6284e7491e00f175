[package]
name = "room_rtc_2c_25"
version = "0.1.0"
edition = "2021"
publish = false

[dependencies]
openssl = "0.10"
udp-dtls = "*"
rand = "0.8"
openh264 = "*"

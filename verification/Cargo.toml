[package]
name = "temper_server"
version = "0.1.0"
edition = "2021"
publish = false

[dependencies]
dbus = "=0.1.2"
usb = "=0.2.2"

[package]
name = "fwupd-dbus"
version = "0.3.0"
edition = "2021"
publish = false

[dependencies]
base64 = "=0.13.1"
crypto-hash = "=0.3.4"
dbus = { version = "=0.9.12", features = ["vendored"] }
hex-view = "=0.1.3"
log = "=0.4.34"
thiserror = "=1.0.69"
ureq = "=2.12.1"
url = "=2.5.8"
xdg = "=2.5.2"
zbus = "=3.15.2"

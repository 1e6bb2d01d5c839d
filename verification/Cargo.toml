[package]
name = "speekr"
version = "0.1.0"
edition = "2021"
publish = false

[dependencies]
arboard = { version = "=3.7.0", default-features = false }
global-hotkey = "=0.9.0"
rodio = "=0.23.0"
tao = "=0.37.2"
thiserror = "=2.0.21"
tray-icon = { version = "=0.26.1", default-features = false, features = ["ksni"] }
wry = "=0.57.1"

[package]
name = "wry-ffi"
version = "0.1.0"
edition = "2021"
publish = false

[dependencies]
serde_json = "=1.0.154"
url = "=2.5.8"
http = "=1.5.0"
global-hotkey = "=0.9.0"
tao = "=0.37.2"
wry = "=0.57.1"
muda = "=0.21.2"
tray-icon = "=0.26.1"
rfd = { version = "=0.17.2", default-features = false, features = ["gtk3"] }
tinyfiledialogs = "=3.9.1"
notify-rust = "=4.18.2"
image = { version = "=0.25.10", default-features = false, features = ["png", "ico", "jpeg"] }
gtk = "=0.18.2"
log = "=0.4.34"
env_logger = "=0.11.11"

[package]
name = "apple_ble"
version = "0.1.0"
edition = "2021"
publish = false

[dependencies]
sha2 = "*"
eui48 = "*"
bluer = { version = "*", features = ["bluetoothd"] }
sudo = "*"
systemctl = "*"
async-trait = "*"
futures = "*"

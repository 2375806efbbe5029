[package]
name = "halod_drivers"
version = "0.1.0"
edition = "2021"
publish = false

[dependencies]
anyhow = "1"
async-trait = "0.1"
hidapi = { version = "2", default-features = false, features = ["linux-native-basic-udev"] }
image = { version = "0.25", default-features = false, features = ["gif", "jpeg", "png"] }
libloading = "0.8"
log = "0.4"
q565 = "*"
tokio = { version = "1", features = ["rt", "sync", "time"] }

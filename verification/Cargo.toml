[package]
name = "knx_rust"
version = "0.1.0"
edition = "2021"
publish = false

[dependencies]
byteorder = "1"
thiserror = "*"
mio = { version = "0.7", features = ["os-poll", "net"] }
mio-timerfd = "*"

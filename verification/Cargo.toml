[package]
name = "port_forward"
version = "0.1.0"
edition = "2021"
publish = false

[dependencies]
anyhow = "1"
byteorder = "1"
rand = "0.8"
rlua = "0.19"
thiserror = "1"
tokio = { version = "1", features = ["full"] }
uuid = "1"

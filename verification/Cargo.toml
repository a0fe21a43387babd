[package]
name = "pp_bridge"
version = "0.1.0"
edition = "2021"
publish = false

[dependencies]
libc = "0.2"
rosu-pp = "0.9"
tokio = { version = "1", features = ["rt"] }

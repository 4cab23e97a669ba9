[package]
name = "lx16a_rover"
version = "0.1.0"
edition = "2021"
publish = false

[dependencies]
byteorder = "1"
serde = { version = "1", features = ["derive"] }
serialport = { version = "4", default-features = false }
vector2 = "*"
tokio = { version = "1", features = ["rt-multi-thread", "macros", "time", "sync"] }

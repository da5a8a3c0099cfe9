[package]
name = "zakura"
version = "0.1.0"
edition = "2021"
publish = false

[dependencies]
byteorder = "1"
iroh = { version = "1.4", default-features = false }
rand = "0.8"
thiserror = "1"
tokio = { version = "1", default-features = false, features = ["sync", "time", "rt", "macros", "io-util"] }
tokio-util = { version = "0.7", default-features = false }

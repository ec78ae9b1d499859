[package]
name = "aranet4"
version = "0.1.0"
edition = "2021"
publish = false

[dependencies]
btleplug = "*"
tokio = { version = "*", features = ["macros", "time", "rt"] }
uuid = "*"
thiserror = "*"

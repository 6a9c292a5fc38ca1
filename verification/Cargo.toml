[package]
name = "tgcalls"
version = "0.1.0"
edition = "2021"
publish = false

[dependencies]
colored = "*"
ext-php-rs = "*"
libc = "0.2"
once_cell = "1"
tokio = { version = "1", features = ["rt-multi-thread", "net", "sync", "io-util"] }

[package]
name = "nmea0183-parser"
version = "0.3.0"
edition = "2021"
publish = false

[dependencies]
nom = "8"
heapless = "0.8"
time = "0.3"
syn = { version = "2", features = ["full"] }
quote = "1"
proc-macro2 = "1"
serde = { version = "1", features = ["derive"] }

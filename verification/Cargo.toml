[package]
name = "sniffnet"
version = "0.1.0"
edition = "2021"
publish = false

[dependencies]
iced = { version = "0.4", features = ["tokio"] }
pcap = "0.10"
serde = { version = "1", features = ["derive"] }

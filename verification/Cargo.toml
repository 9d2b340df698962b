[package]
name = "steam_vent_net"
version = "0.1.0"
edition = "2021"
publish = false

[dependencies]
steam-vent-proto = "*"
steam-vent-crypto = "*"
protobuf = "2"
crc = "1"
tokio = { version = "1", features = ["net", "io-util"] }

[package]
name = "amqp_client_cli"
version = "0.1.0"
edition = "2021"
publish = false

[dependencies]
amiquip = "=0.4.2"
anyhow = "*"
chrono = "=0.4.45"
crossbeam = "=0.8.5"
crossterm = "=0.25.0"
directories = "*"
mio = "=0.6.23"
native-tls = "*"
serde = { version = "*", features = ["derive"] }
serde_derive = "*"
serde_json = { version = "=1.0.151", features = ["float_roundtrip"] }
tui = "=0.19.0"

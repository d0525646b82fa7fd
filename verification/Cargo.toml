[package]
name = "batt_reminder"
version = "0.1.0"
edition = "2021"
publish = false

[dependencies]
rodio = "*"
serde = "*"
serde_derive = "*"
signal-hook = "*"
toml = "*"

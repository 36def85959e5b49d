[package]
name = "emulation"
version = "0.1.0"
edition = "2021"
publish = false

[dependencies]
chromiumoxide_cdp = "*"
chromiumoxide_types = "*"
serde_json = "*"

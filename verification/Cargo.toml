[package]
name = "thermal"
version = "0.1.0"
edition = "2021"
publish = false

[dependencies]
rusb = "0.9"

[dev-dependencies]
codepage-437 = "0.1"

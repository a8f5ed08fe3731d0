[package]
name = "slimevr_wrangler"
version = "0.1.0"
edition = "2021"
publish = false

[dependencies]
joycon-rs = "*"

[dev-dependencies]
deku = "*"

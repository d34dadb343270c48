[package]
name = "dual_shock_4"
version = "0.1.0"
edition = "2021"
publish = false

[dependencies]
hex = "0.4"
hidapi = "2"
log = "0.4"
clap = { version = "4", default-features = false, features = ["std", "derive", "help", "usage"] }
dirs = "5"
simplelog = { version = "0.12", default-features = false }

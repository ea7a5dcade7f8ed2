[package]
name = "deck_recorder"
version = "0.1.0"
edition = "2021"
publish = false

[dependencies]
image = "0.25"
tokio = { version = "1", features = ["rt-multi-thread", "macros", "net", "io-util", "process"] }
elgato-streamdeck = { version = "*", features = ["async"] }

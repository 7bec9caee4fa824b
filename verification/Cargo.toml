[package]
name = "spotifypi_remote"
version = "0.1.0"
edition = "2021"
publish = false

[dependencies]
regex = "1"
url = "2"
fltk = "1"
fltk-theme = "*"
tokio = { version = "1", features = ["rt-multi-thread", "macros"] }
tokio-tungstenite = "0.20"
futures = "0.3"
futures-util = "0.3"

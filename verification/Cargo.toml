[package]
name = "spotify_terminal"
version = "0.1.0"
edition = "2021"
publish = false

[dependencies]
termion = "*"
eyre = "*"
futures = "*"
open = "*"
rspotify = { version = "*", default-features = false, features = ["client-reqwest", "reqwest-rustls-tls", "env-file"] }

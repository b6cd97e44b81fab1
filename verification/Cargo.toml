[package]
name = "passrat"
version = "0.1.0"
edition = "2021"
publish = false

[dependencies]
chrono = "=0.4.45"
jiff = "=0.2.43"
url = "=2.5.8"
email-address-parser = "*"
rustpass = "=0.2.1"
ordinal = "=0.4.1"
ratatui = "=0.30.2"
crossterm = "=0.29.0"
arboard = "=3.7.0"
rusqlite = { version = "=0.41.1", features = ["bundled"] }
xdg = "=3.0.0"
color-eyre = "=0.6.5"

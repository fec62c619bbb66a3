[package]
name = "ascii_player"
version = "0.1.0"
edition = "2021"
publish = false

[dependencies]
clap = { version = "4", features = ["derive"] }
color-eyre = "0.6"
crossterm = "0.28"
image = "0.24"
lofty = "0.22"
mpd = "0.1"
mpris = "2"
rascii_art = "*"
ratatui = "0.29"
reqwest = { version = "0.12", features = ["blocking"] }
url = "2"

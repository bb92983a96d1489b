[package]
name = "paladin-gtk"
version = "0.2.0"
edition = "2021"
publish = false

[dependencies]
clap = { version = "4", features = ["derive"] }
libadwaita = { version = "0.7", features = ["v1_5"] }
relm4 = { version = "0.9", features = ["libadwaita"] }
secrecy = "0.10"
zeroize = "1"

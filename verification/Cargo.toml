[package]
name = "ascn_convert"
version = "0.1.0"
edition = "2021"
publish = false

[dependencies]
ascn-rs = "*"
chess = "*"
clap = { version = "*", features = ["derive"] }
pgn-rs = "*"

[package]
name = "french_suited_playing_cards"
version = "0.1.0"
edition = "2021"

[dependencies]
rand = "0.8"

[package]
name = "bevy_discord_presence"
version = "0.1.0"
edition = "2021"
publish = false

[dependencies]
parking_lot = "*"
discord-presence = "*"
bevy = { version = "*", default-features = false }

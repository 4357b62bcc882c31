[package]
name = "bevy_intro_screen"
version = "0.1.0"
edition = "2021"
publish = false

[dependencies]
bevy = { version = "0.14", default-features = false, features = ["bevy_state", "bevy_asset"] }
bevy_asset_loader = { version = "0.21", default-features = false }
bon = "2"
getset = "0.1"

[package]
name = "runner_core"
version = "0.1.0"
edition = "2021"
publish = false

[dependencies]
rand = "=0.8.8"
bevy = { version = "0.16", default-features = false, features = ["bevy_asset", "bevy_core_pipeline", "bevy_sprite", "bevy_state", "bevy_text"] }
bevy_kira_audio = "0.23"

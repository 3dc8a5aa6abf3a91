[package]
name = "bevy_full_asset_path"
version = "0.1.0"
edition = "2021"
publish = false

[dependencies]
bevy = { version = "=0.16.1", default-features = false, features = ["bevy_asset", "bevy_scene"] }
thiserror = "=2.0.21"

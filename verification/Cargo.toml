[package]
name = "dice_tray"
version = "0.1.0"
edition = "2021"
publish = false

[dependencies]
rand = "=0.8.8"
bevy = { version = "=0.12.1", default-features = false }
bevy_xpbd_3d = { version = "=0.3.3", default-features = false, features = ["3d", "f32"] }

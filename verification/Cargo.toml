[package]
name = "dicetown"
version = "0.1.0"
edition = "2021"
publish = false

[dependencies]
avian3d = { version = "=0.3.1", default-features = false, features = ["3d", "f32", "parry-f32"] }
bevy = { version = "=0.16.1", default-features = false, features = ["std"] }
thiserror = "2"

[package]
name = "opaque_pass"
version = "0.1.0"
edition = "2021"
publish = false

[dependencies]
bevy_ecs = { version = "0.12", default-features = false }

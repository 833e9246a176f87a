[package]
name = "sick_day"
version = "0.1.0"
edition = "2021"
publish = false

[dependencies]
bevy = { version = "=0.17.3", default-features = false, features = ["std", "bevy_color", "bevy_state", "bevy_window", "bevy_asset", "bevy_camera"] }
bevy_vector_shapes = { version = "0.11", default-features = false }

[package]
name = "game_animation"
version = "0.1.0"
edition = "2021"
publish = false

[dependencies]
bevy = { version = "0.8", default-features = false, features = ["render", "bevy_winit", "x11", "png"] }
bevy_time = "0.8"
bevy_ecs_tilemap = "0.7"
futures-lite = "1"
heron = { version = "4", features = ["2d"] }
rand = "0.8"

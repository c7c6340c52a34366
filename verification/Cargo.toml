[package]
name = "where_was_i"
version = "0.1.0"
edition = "2021"
publish = false

[dependencies]
byteorder = "*"
bevy = { version = "*", default-features = false, features = ["bevy_window", "bevy_log"] }

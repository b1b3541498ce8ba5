[package]
name = "game_integrations"
version = "0.1.0"
edition = "2021"
publish = false

[dependencies]
mlua = { version = "*", features = ["lua54", "vendored"] }
serde_json = "*"
rusty_pool = "*"
minreq = "*"

[package]
name = "globed_game_server"
version = "0.1.0"
edition = "2021"
publish = false

[dependencies]
log = "0.4"
tokio = { version = "1", default-features = false, features = ["net", "rt", "rt-multi-thread", "sync"] }

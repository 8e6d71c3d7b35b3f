[package]
name = "sleighcraft"
version = "0.1.0"
edition = "2021"
publish = false

[dependencies]
rusqlite = { version = "*", features = ["functions", "bundled"] }
goblin = "*"
rand = "*"

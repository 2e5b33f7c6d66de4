[package]
name = "entity_statemachine"
version = "0.1.0"
edition = "2021"
publish = false

[dependencies]
tonic = { version = "*", features = ["transport"] }

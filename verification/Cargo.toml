[package]
name = "gma3_cue_display"
version = "0.1.0"
edition = "2021"
publish = false

[dependencies]
chrono = "0.4"
regex = "1"
rosc = "0.10"
serde = { version = "1", features = ["derive"] }
serde_json = "1"
tokio = { version = "1", features = ["rt-multi-thread", "sync", "macros"] }
warp = "0.3"
futures = "0.3"
parking_lot = "0.12"
once_cell = "1"
local-ip-address = "0.6"
open = "5"

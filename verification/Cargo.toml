[package]
name = "catacombs"
version = "0.1.0"
edition = "2021"
publish = false

[dependencies]
tokio = { version = "1", features = ["sync"] }
syn = { version = "1", features = ["full"] }
proc-macro2 = "1"
quote = "1"
rayon = "1"
once_cell = "1"
parking_lot = "0.12"

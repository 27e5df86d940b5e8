[package]
name = "mara_core"
version = "0.1.0"
edition = "2021"
publish = false

[dependencies]
iconflow = { version = "=2.1.0", features = ["pack-fluentui"] }
egui = { version = "*", default-features = false }

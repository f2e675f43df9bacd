[package]
name = "two_mover_3_pos"
version = "0.1.0"
edition = "2021"
publish = false

[dependencies]
anyhow = "=1.0.104"
dirs = "=7.0.0"
eframe = { version = "0.36", default-features = false, features = ["default_fonts", "glow", "x11"] }
egui = "0.36"
egui-notify = "=0.23.0"
eosc-rs = "=2.0.1"
regex = "=1.13.1"
rusqlite = { version = "=0.40.2", features = ["bundled"] }
rusqlite_migration = "=2.6.0"
serde = { version = "=1.0.229", features = ["derive"] }
toml = "=1.1.8"
trig = "=0.4.0"

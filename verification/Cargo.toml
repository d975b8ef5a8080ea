[package]
name = "witness_tas"
version = "0.1.0"
edition = "2021"
publish = false

[dependencies]
ctor = "0.2"
dll-syringe = "0.15"
eframe = { version = "0.27", default-features = false, features = ["glow", "default_fonts"] }
egui = "0.27"
rand = "0.8"
region = "3"
retour = { version = "0.3", features = ["static-detour"] }
serde = { version = "1", features = ["derive"] }
serde_json = "1"
tracing = "0.1"
tracing-appender = "0.2"
tracing-subscriber = "0.3"

[dev-dependencies]
chumsky = { version = "0.9", default-features = false, features = ["std"] }

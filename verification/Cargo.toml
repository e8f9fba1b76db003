[package]
name = "egui_probe"
version = "0.1.0"
edition = "2021"
publish = false

[dependencies]
egui = "=0.36.2"
egui-phosphor = "=0.14.0"
syn = { version = "=3.0.9", features = ["full", "extra-traits"] }
quote = "=1.0.47"
proc-macro2 = "=1.0.107"
proc-easy = "=0.5.0"

[package]
name = "rust_emu"
version = "0.1.0"
edition = "2021"
publish = false

[dependencies]
ndarray = "0.16"
clap = { version = "4", features = ["derive"] }
color-eyre = "0.6"
tracing = "0.1"
tracing-subscriber = { version = "0.3", features = ["env-filter", "fmt"] }
tap = "1"
spin_sleep = "1"
sdl2 = "0.37"
imgui = "0.12"
imgui-glow-renderer = "0.13"
imgui-sdl2-support = "0.13"
glow = "0.14"

[package]
name = "rust_fractal"
version = "0.1.0"
edition = "2021"
publish = false

[dependencies]
anyhow = "1"
clap = { version = "4", features = ["derive"] }
glob = "0.3"
notify = "*"
notify-debouncer-mini = "*"
rayon = "1"

[package]
name = "xp3_audio_speedup"
version = "0.1.0"
edition = "2021"
publish = false

[dependencies]
anyhow = "=1.0.104"
assert2 = "=0.4.1"
clap = { version = "=4.6.7", features = ["derive"] }
log = "=0.4.34"
pretty_env_logger = "=0.5.0"
rayon = "=1.12.0"
tempfile = "=3.27.0"
walkdir = "=2.5.0"
xp3 = "=0.3.0"

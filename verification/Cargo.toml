[package]
name = "loop_player"
version = "0.1.0"
edition = "2021"
publish = false

[dependencies]
anyhow = "1"
atty = "0.2"
clap = { version = "3", features = ["derive"] }
ctrlc = "3"
env_logger = "0.9"
lewton = "0.10"
libsoxr = "0.2"
log = "0.4"
portaudio = "0.7"
terminal_size = "0.1"

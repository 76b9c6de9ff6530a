[package]
name = "music2psp"
version = "0.1.0"
edition = "2021"
publish = false

[dependencies]
eframe = { version = "=0.29.1", default-features = false, features = ["glow", "default_fonts", "x11"] }
egui = { version = "=0.29.1", default-features = false }
egui_extras = { version = "=0.29.1", default-features = false }
glob = "=0.3.4"
image = { version = "=0.25.10", default-features = false, features = ["jpeg", "png"] }
mp3lame-encoder = "=0.2.5"
rayon = "=1.12.0"
rfd = { version = "=0.15.4", default-features = false, features = ["xdg-portal", "tokio"] }
symphonia = { version = "=0.5.5", features = ["mp3", "flac", "ogg", "vorbis"] }

[package]
name = "lyric_sync"
version = "0.1.0"
edition = "2021"
publish = false

[dependencies]
gtk = "0.18"
glib-macros = "0.18"
mpris = "2"
rfd = { version = "*", default-features = false, features = ["gtk3"] }

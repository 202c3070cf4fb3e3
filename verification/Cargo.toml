[package]
name = "audio_library"
version = "0.1.0"
edition = "2021"
publish = false

[dependencies]
futures-channel = "=0.3.34"
futures-util = "=0.3.34"
glib = "=0.22.10"
gstreamer = "=0.25.4"
gtk4 = { version = "=0.11.5", features = ["v4_10"] }
kstring = "=2.0.2"
ksni = { version = "=0.3.7", features = ["blocking"] }
libadwaita = { version = "=0.9.2", features = ["v1_5"] }
rusqlite = { version = "=0.41.1", features = ["bundled"] }
serde = { version = "1", features = ["derive"] }

[dev-dependencies]
serde_json = "1"

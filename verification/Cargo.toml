[package]
name = "track2kml"
version = "0.1.0"
edition = "2021"
publish = false

[dependencies]
anyhow = "1"
clap = { version = "4", features = ["derive"] }
colored = "2"
map_3d = "0.1"
quick-xml = "0.30"
serde_json = "1"
textwrap = "0.16"
time = { version = "0.3", features = ["formatting"] }

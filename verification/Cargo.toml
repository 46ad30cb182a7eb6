[package]
name = "z13helper"
version = "0.1.0"
edition = "2021"
publish = false

[dependencies]
anyhow = "1"
async-channel = "2"
gdk4 = "*"
gdk4-x11 = "*"
gio = "*"
glib = "*"
gtk4 = { version = "*", features = ["v4_14"] }
gtk4-layer-shell = "*"
libadwaita = { version = "*", features = ["v1_5"] }
libc = "0.2"
serde = { version = "1", features = ["derive"] }
serde_json = "1"
signal-hook = "0.3"
thiserror = "2"
tracing = "0.1"
x11rb = "0.13"
zbus = "5"

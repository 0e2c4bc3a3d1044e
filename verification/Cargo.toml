[package]
name = "termbridge"
version = "0.1.0"
edition = "2021"
publish = false

[dependencies]
gdk = "0.8"
glib = "0.5"
gtk = { version = "0.4", features = ["v3_16"] }
shared_library = "0.1"

[package]
name = "framesite"
version = "0.1.0"
edition = "2021"
publish = false

[dependencies]
serde = { version = "=1.0.229", features = ["derive"] }
serde_json = "=1.0.151"
tera = { version = "=2.4.0", features = ["glob_fs"] }

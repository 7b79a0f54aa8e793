[package]
name = "pipework_datagen"
version = "0.1.0"
edition = "2021"
publish = false

[dependencies]
convert_case = "0.8"
serde = { version = "1", features = ["derive"] }
serde_json = "1"
smol = "2"
surf = { version = "2", default-features = false, features = ["h1-client-rustls"] }

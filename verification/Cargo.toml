[package]
name = "webserver"
version = "0.1.0"
edition = "2021"
publish = false

[dependencies]
serde = { version = "=1.0.229", features = ["derive"] }
serde_json = "=1.0.151"
handlebars = "=6.4.4"
reqwest = { version = "=0.13.5", default-features = false, features = ["blocking"] }

[dev-dependencies]
rayon = "1"

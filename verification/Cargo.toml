[package]
name = "buscador_contenido_youtube"
version = "0.1.0"
edition = "2021"
publish = false

[dependencies]
htmlescape = "0.3"
unidecode = "0.3"
regex = "1"
serde = { version = "1", features = ["derive"] }
serde_json = "1"
serde-xml-rs = "0.6"
clap = { version = "4", features = ["derive"] }
tokio = { version = "1", features = ["full"] }
axum = "0.7"
reqwest = { version = "0.12", default-features = false, features = ["rustls-tls"] }

[package]
name = "kanjidic_parser"
version = "0.1.0"
edition = "2021"
publish = false

[dependencies]
kradical_static = "=0.2.0"
roxmltree = "=0.21.1"
serde = { version = "=1.0.229", features = ["derive"] }
thiserror = "=1.0.69"

[dev-dependencies]
nom = "7"

[package]
name = "mdbook_buildtime_annotations"
version = "0.1.0"
edition = "2021"
publish = false

[dependencies]
toml = "*"
mdbook-preprocessor = "*"
gix = "*"
clap = { version = "*", features = ["derive"] }
serde = { version = "*", features = ["derive"] }
serde_json = "*"
tracing = "*"
tracing-subscriber = { version = "*", features = ["env-filter"] }

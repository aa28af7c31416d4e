[package]
name = "mystery_box_interactor"
version = "0.1.0"
edition = "2021"
publish = false

[dependencies]
multiversx-sc = "0.52"
multiversx-sc-scenario = "0.52"
multiversx-sc-snippets = "0.52"
serde = { version = "1", features = ["derive"] }
tokio = { version = "1", features = ["macros", "rt-multi-thread"] }
toml = "0.8"

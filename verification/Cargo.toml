[package]
name = "katex_gdef"
version = "0.1.0"
edition = "2021"
publish = false

[dependencies]
html5gum = "*"
once_cell = "*"
serde = { version = "*", features = ["derive"] }
serde_json = "*"
thiserror = "*"
quickjs-rusty = "*"

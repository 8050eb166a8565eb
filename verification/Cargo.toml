[package]
name = "orestaty"
version = "0.1.0"
edition = "2021"
publish = false

[dependencies]
clap = { version = "*", features = ["derive"] }
grass = "*"
handlebars = { version = "*", features = ["script_helper"] }
pulldown-cmark = "*"
serde = { version = "*", features = ["derive"] }
serde_json = "*"
serde_yml = "*"
syntect = { version = "*", default-features = false, features = ["default-fancy"] }
toml = "*"
unindent = "*"

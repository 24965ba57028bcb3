[package]
name = "simple_cd"
version = "0.1.0"
edition = "2021"
publish = false

[dependencies]
dotenv = "0.15"
run_script = "*"
rocket = { version = "0.5", features = ["json"] }

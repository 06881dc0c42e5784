[package]
name = "auto_gippity"
version = "0.1.0"
edition = "2021"
publish = false

[dependencies]
async-trait = "*"
crossterm = "*"
dotenv = "*"
reqwest = { version = "*", default-features = false, features = ["json"] }
serde = { version = "*", features = ["derive"] }
serde_json = "*"
thiserror = "*"
tokio = { version = "*", features = ["macros", "rt-multi-thread", "time"] }

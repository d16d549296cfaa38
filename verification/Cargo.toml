[package]
name = "rusty_genius"
version = "0.1.0"
edition = "2021"
publish = false

[dependencies]
anyhow = "1"
async-std = { version = "1", features = ["attributes", "unstable"] }
async-trait = "0.1"
clap = { version = "4", features = ["derive"] }
colored = "2"
ctrlc = "3"
dirs = "5"
futures = "0.3"
indicatif = "0.17"
llama-cpp-2 = "*"
serde = { version = "1", features = ["derive"] }
serde_json = "1"
surf = { version = "2", default-features = false, features = ["h1-client-rustls"] }
tide = "0.16"
tide-websockets = "0.4"
toml = "0.8"

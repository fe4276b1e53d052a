[package]
name = "webapp_deployer"
version = "0.1.0"
edition = "2021"
publish = false

[dependencies]
regex = "1"
chrono = "0.4"
git2 = { version = "*", default-features = false }
toml = "*"
serde = { version = "1", features = ["derive"] }
structopt = "0.3"
colored = "*"
tempfile = "*"
zip = { version = "*", default-features = false }
rusoto_core = { version = "0.48", default-features = false, features = ["rustls"] }
rusoto_lambda = { version = "0.48", default-features = false, features = ["rustls"] }
tokio = { version = "1", features = ["rt"] }
